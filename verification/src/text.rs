//! Text helpers shared by the searches and the reply readers.
//!
//! Everything here is stated over the characters of a string, `Seq<char>`.
//! What the standard library decides by Unicode tables (which characters are
//! white space, what the upper and lower case of a string is) is only named
//! here; the rest is defined and proved.

use vstd::prelude::*;

verus! {

/// Whether `c` has the Unicode property `White_Space`, as `char::is_whitespace` decides it.
pub uninterp spec fn is_white_space(c: char) -> bool;

/// The upper case of a string, as `str::to_uppercase` computes it.
pub uninterp spec fn uppercase_of(s: Seq<char>) -> Seq<char>;

/// The lower case of a string, as `str::to_lowercase` computes it.
pub uninterp spec fn lowercase_of(s: Seq<char>) -> Seq<char>;

/// Calls `char::is_whitespace`. Nothing is claimed of the answer but that it
/// is the one the standard library gives for this character.
#[verifier::external_body]
pub(crate) fn is_whitespace(c: char) -> (r: bool)
    ensures
        r == is_white_space(c),
{
    c.is_whitespace()
}

/// Calls `str::to_uppercase`. The result is only named: it depends on the
/// argument alone.
#[verifier::external_body]
pub(crate) fn to_uppercase(s: &str) -> (r: String)
    ensures
        r@ == uppercase_of(s@),
{
    s.to_uppercase()
}

/// Calls `str::to_lowercase`. The result is only named: it depends on the
/// argument alone.
#[verifier::external_body]
pub(crate) fn to_lowercase(s: &str) -> (r: String)
    ensures
        r@ == lowercase_of(s@),
{
    s.to_lowercase()
}

/// Calls `String::push`, which appends the character to the end of the string.
#[verifier::external_body]
pub(crate) fn push_char(s: &mut String, c: char)
    ensures
        final(s)@ == old(s)@.push(c),
{
    s.push(c)
}

/// The characters of `s`, in order.
pub fn chars_of(s: &str) -> (r: Vec<char>)
    ensures
        r@ == s@,
{
    let mut out: Vec<char> = Vec::new();
    for c in it: s.chars()
        invariant
            out@ == it.seq().take(it.index@),
    {
        out.push(c);
    }
    out
}

/// The string made of `chars[from..to]`.
pub fn string_of(chars: &Vec<char>, from: usize, to: usize) -> (r: String)
    requires
        from <= to <= chars@.len(),
    ensures
        r@ == chars@.subrange(from as int, to as int),
{
    let mut out = String::new();
    let mut i: usize = from;
    while i < to
        invariant
            from <= i <= to <= chars@.len(),
            out@ == chars@.subrange(from as int, i as int),
        decreases to - i,
    {
        push_char(&mut out, chars[i]);
        i += 1;
        assert(out@ == chars@.subrange(from as int, i as int));
    }
    out
}

/// The first position at or after `i` that holds no white space.
pub open spec fn skip_white_space(s: Seq<char>, i: int) -> int
    decreases s.len() - i,
{
    if 0 <= i < s.len() && is_white_space(s[i]) {
        skip_white_space(s, i + 1)
    } else {
        i
    }
}

/// The end of the text that is left of `s[..j]` once trailing white space is dropped.
pub open spec fn skip_white_space_back(s: Seq<char>, j: int) -> int
    decreases j,
{
    if 0 < j <= s.len() && is_white_space(s[j - 1]) {
        skip_white_space_back(s, j - 1)
    } else {
        j
    }
}

/// `s` without its leading and trailing white space.
pub open spec fn trimmed(s: Seq<char>) -> Seq<char> {
    let a = skip_white_space(s, 0);
    let b = skip_white_space_back(s, s.len() as int);
    if a < b {
        s.subrange(a, b)
    } else {
        Seq::empty()
    }
}

/// Where the search for the start of a text stops: at or after `i`, not
/// behind the end, and not on white space.
pub proof fn lemma_skip_white_space_stops(s: Seq<char>, i: int)
    requires
        0 <= i <= s.len(),
    ensures
        i <= skip_white_space(s, i) <= s.len(),
        skip_white_space(s, i) < s.len() ==> !is_white_space(s[skip_white_space(s, i)]),
    decreases s.len() - i,
{
    if i < s.len() && is_white_space(s[i]) {
        lemma_skip_white_space_stops(s, i + 1);
    }
}

/// Where the search for the end of a text stops: at or before `j`, not before
/// the start, and not behind white space.
pub proof fn lemma_skip_white_space_back_stops(s: Seq<char>, j: int)
    requires
        0 <= j <= s.len(),
    ensures
        0 <= skip_white_space_back(s, j) <= j,
        skip_white_space_back(s, j) > 0 ==> !is_white_space(s[skip_white_space_back(s, j) - 1]),
    decreases j,
{
    if 0 < j && is_white_space(s[j - 1]) {
        lemma_skip_white_space_back_stops(s, j - 1);
    }
}

/// A text that has lost the white space around it loses nothing when the
/// white space around it is dropped again.
pub proof fn lemma_trimmed_twice(s: Seq<char>)
    ensures
        trimmed(trimmed(s)) == trimmed(s),
{
    let a = skip_white_space(s, 0);
    let b = skip_white_space_back(s, s.len() as int);
    lemma_skip_white_space_stops(s, 0);
    lemma_skip_white_space_back_stops(s, s.len() as int);
    let t = trimmed(s);
    if a < b {
        assert(t[0] == s[a]);
        assert(t[t.len() - 1] == s[b - 1]);
        assert(skip_white_space(t, 0) == 0);
        assert(skip_white_space_back(t, t.len() as int) == t.len());
        assert(t.subrange(0, t.len() as int) =~= t);
    } else {
        assert(t.len() == 0);
        assert(skip_white_space(t, 0) == 0);
        assert(skip_white_space_back(t, 0) == 0);
    }
}

/// `s` without its leading and trailing white space.
pub fn trim(s: &str) -> (r: String)
    ensures
        r@ == trimmed(s@),
{
    let chars = chars_of(s);
    let n: usize = chars.len();
    let mut a: usize = 0;
    while a < n && is_whitespace(chars[a])
        invariant
            n == chars@.len(),
            chars@ == s@,
            a <= n,
            skip_white_space(s@, 0) == skip_white_space(s@, a as int),
        decreases n - a,
    {
        a += 1;
    }
    let mut b: usize = n;
    while b > 0 && is_whitespace(chars[b - 1])
        invariant
            n == chars@.len(),
            chars@ == s@,
            b <= n,
            skip_white_space_back(s@, n as int) == skip_white_space_back(s@, b as int),
        decreases b,
    {
        b -= 1;
    }
    if a < b {
        string_of(&chars, a, b)
    } else {
        String::new()
    }
}


/// `s` without one trailing period, if it ends in one.
pub open spec fn without_period(s: Seq<char>) -> Seq<char> {
    if s.len() > 0 && s.last() == '.' {
        s.drop_last()
    } else {
        s
    }
}

/// The form in which a message of the server is kept: no white space around
/// it, no period at its end, lower case.
pub open spec fn normalized(s: Seq<char>) -> Seq<char> {
    lowercase_of(without_period(trimmed(s)))
}

/// `s` without one trailing period, if it ends in one.
pub fn strip_period(s: &str) -> (r: String)
    ensures
        r@ == without_period(s@),
{
    let chars = chars_of(s);
    let n: usize = chars.len();
    if n > 0 && chars[n - 1] == '.' {
        string_of(&chars, 0, n - 1)
    } else {
        assert(chars@.subrange(0, n as int) == chars@);
        string_of(&chars, 0, n)
    }
}

/// Brings a message of the server into the form in which it is kept.
pub fn normalize_message(s: &str) -> (r: String)
    ensures
        r@ == normalized(s@),
{
    let t = trim(s);
    let p = strip_period(t.as_str());
    to_lowercase(p.as_str())
}

/// The parts in order, with `sep` between each two neighbours.
pub open spec fn joined(parts: Seq<Seq<char>>, sep: Seq<char>) -> Seq<char>
    decreases parts.len(),
{
    if parts.len() == 0 {
        Seq::empty()
    } else if parts.len() == 1 {
        parts[0]
    } else {
        joined(parts.drop_last(), sep) + sep + parts.last()
    }
}

/// The views of the strings of `v`.
pub open spec fn views_of(v: Seq<String>) -> Seq<Seq<char>> {
    Seq::new(v.len(), |i: int| v[i]@)
}

/// The parts in order, with `sep` between each two neighbours.
pub fn join(parts: &Vec<String>, sep: &str) -> (r: String)
    ensures
        r@ == joined(views_of(parts@), sep@),
{
    let mut out = String::new();
    let n: usize = parts.len();
    let mut i: usize = 0;
    while i < n
        invariant
            n == parts@.len(),
            i <= n,
            out@ == joined(views_of(parts@).take(i as int), sep@),
        decreases n - i,
    {
        proof {
            let all = views_of(parts@);
            assert(all.take(i + 1).drop_last() == all.take(i as int));
            assert(all.take(i + 1).last() == parts@[i as int]@);
        }
        if i > 0 {
            out.append(sep);
        }
        out.append(parts[i].as_str());
        i += 1;
    }
    assert(views_of(parts@).take(n as int) == views_of(parts@));
    out
}

/// Whether `c` is one of the ten decimal digits.
pub open spec fn is_digit(c: char) -> bool {
    '0' <= c <= '9'
}

/// The number that the digit `c` stands for.
pub open spec fn digit_value(c: char) -> nat {
    (c as u32 - '0' as u32) as nat
}

/// Whether `s` is made of decimal digits only.
pub open spec fn all_digits(s: Seq<char>) -> bool {
    forall|i: int| 0 <= i < s.len() ==> is_digit(#[trigger] s[i])
}

/// The number that a string of decimal digits writes.
pub open spec fn decimal_value(s: Seq<char>) -> nat
    decreases s.len(),
{
    if s.len() == 0 {
        0
    } else {
        decimal_value(s.drop_last()) * 10 + digit_value(s.last())
    }
}

/// `s` without a leading plus sign.
pub open spec fn unsigned_part(s: Seq<char>) -> Seq<char> {
    if s.len() > 0 && s[0] == '+' {
        s.drop_first()
    } else {
        s
    }
}

/// The number that `s` writes in decimal digits, after at most one plus sign,
/// if it writes one that is not above `max`.
pub open spec fn parsed_number(s: Seq<char>, max: nat) -> Option<nat> {
    let digits = unsigned_part(s);
    if digits.len() > 0 && all_digits(digits) && decimal_value(digits) <= max {
        Some(decimal_value(digits))
    } else {
        None
    }
}

/// The number that `s` writes, as a `u32`.
pub open spec fn parsed_u32(s: Seq<char>) -> Option<u32> {
    match parsed_number(s, u32::MAX as nat) {
        Some(n) => Some(n as u32),
        None => None,
    }
}

/// A longer string of digits writes no smaller number than its beginning.
pub proof fn lemma_decimal_value_grows(s: Seq<char>, k: int)
    requires
        0 <= k <= s.len(),
        all_digits(s),
    ensures
        decimal_value(s.take(k)) <= decimal_value(s),
    decreases s.len() - k,
{
    if k < s.len() {
        let t = s.drop_last();
        assert(all_digits(t)) by {
            assert forall|i: int| 0 <= i < t.len() implies is_digit(#[trigger] t[i]) by {
                assert(t[i] == s[i]);
            }
        }
        assert(t.take(k) == s.take(k));
        lemma_decimal_value_grows(t, k);
    } else {
        assert(s.take(k) == s);
    }
}

/// Reads the number that `chars[from..to]` writes, if it is not above `max`.
pub fn parse_number(chars: &Vec<char>, from: usize, to: usize, max: u64) -> (r: Option<u64>)
    requires
        from <= to <= chars@.len(),
        max <= u32::MAX,
    ensures
        match parsed_number(chars@.subrange(from as int, to as int), max as nat) {
            Some(n) => r == Some(n as u64),
            None => r is None,
        },
{
    let ghost s = chars@.subrange(from as int, to as int);
    let mut start: usize = from;
    if from < to && chars[from] == '+' {
        start = from + 1;
    }
    let ghost digits = unsigned_part(s);
    assert(digits == chars@.subrange(start as int, to as int));
    if start == to {
        return None;
    }
    let mut acc: u64 = 0;
    let mut i: usize = start;
    while i < to
        invariant
            from <= start <= i <= to <= chars@.len(),
            s == chars@.subrange(from as int, to as int),
            digits == unsigned_part(s),
            digits == chars@.subrange(start as int, to as int),
            all_digits(digits.take(i - start)),
            acc == decimal_value(digits.take(i - start)),
            acc <= max <= u32::MAX,
        decreases to - i,
    {
        let c = chars[i];
        let ghost next = digits.take(i - start + 1);
        proof {
            assert(next.drop_last() == digits.take(i - start));
            assert(next.last() == c);
        }
        if !(c >= '0' && c <= '9') {
            assert(!is_digit(digits[i - start]));
            return None;
        }
        acc = acc * 10 + (c as u32 - '0' as u32) as u64;
        proof {
            assert(all_digits(next)) by {
                assert forall|j: int| 0 <= j < next.len() implies is_digit(#[trigger] next[j]) by {
                    if j < next.len() - 1 {
                        assert(next[j] == digits.take(i - start)[j]);
                    }
                }
            }
        }
        if acc > max {
            proof {
                if all_digits(digits) {
                    lemma_decimal_value_grows(digits, i - start + 1);
                }
            }
            return None;
        }
        i += 1;
    }
    assert(digits.take(to - start) == digits);
    Some(acc)
}

/// Reads the number that `s` writes in decimal digits, after at most one plus
/// sign: `None` where `s` writes none or one that does not fit.
pub fn parse_u32(s: &str) -> (r: Option<u32>)
    ensures
        r == parsed_u32(s@),
{
    let chars = chars_of(s);
    assert(chars@.subrange(0, chars@.len() as int) == s@);
    match parse_number(&chars, 0, chars.len(), 0xffff_ffff) {
        Some(n) => Some(n as u32),
        None => None,
    }
}


/// The digit that writes `d`.
pub open spec fn digit_char(d: nat) -> char {
    if d == 0 {
        '0'
    } else if d == 1 {
        '1'
    } else if d == 2 {
        '2'
    } else if d == 3 {
        '3'
    } else if d == 4 {
        '4'
    } else if d == 5 {
        '5'
    } else if d == 6 {
        '6'
    } else if d == 7 {
        '7'
    } else if d == 8 {
        '8'
    } else {
        '9'
    }
}

/// `n` in decimal digits, without leading zeros.
pub open spec fn digits_of(n: nat) -> Seq<char>
    decreases n,
{
    if n < 10 {
        seq![digit_char(n)]
    } else {
        digits_of(n / 10).push(digit_char(n % 10))
    }
}

/// `n` in at least two decimal digits.
pub open spec fn two_digits_of(n: nat) -> Seq<char> {
    if n < 10 {
        seq!['0', digit_char(n)]
    } else {
        digits_of(n)
    }
}

/// The digit that writes `d`.
fn digit_of(d: u64) -> (r: char)
    requires
        d < 10,
    ensures
        r == digit_char(d as nat),
{
    if d == 0 {
        '0'
    } else if d == 1 {
        '1'
    } else if d == 2 {
        '2'
    } else if d == 3 {
        '3'
    } else if d == 4 {
        '4'
    } else if d == 5 {
        '5'
    } else if d == 6 {
        '6'
    } else if d == 7 {
        '7'
    } else if d == 8 {
        '8'
    } else {
        '9'
    }
}

/// Appends `n` in decimal digits to `out`.
pub fn push_number(out: &mut String, n: u64)
    ensures
        final(out)@ == old(out)@ + digits_of(n as nat),
    decreases n,
{
    if n >= 10 {
        push_number(out, n / 10);
    }
    push_char(out, digit_of(n % 10));
    proof {
        if n >= 10 {
            assert(old(out)@ + digits_of(n as nat / 10).push(digit_char(n as nat % 10))
                == (old(out)@ + digits_of(n as nat / 10)).push(digit_char(n as nat % 10)));
        } else {
            assert(old(out)@ + seq![digit_char(n as nat)] == old(out)@.push(digit_char(n as nat)));
        }
    }
}

/// `n` in decimal digits, without leading zeros.
pub fn number_to_string(n: u64) -> (r: String)
    ensures
        r@ == digits_of(n as nat),
{
    let mut out = String::new();
    push_number(&mut out, n);
    assert(Seq::<char>::empty() + digits_of(n as nat) == digits_of(n as nat));
    out
}

/// The digits of a number write that number: read back, they give it again.
pub proof fn lemma_digits_write_the_number(n: nat)
    ensures
        digits_of(n).len() > 0,
        all_digits(digits_of(n)),
        decimal_value(digits_of(n)) == n,
    decreases n,
{
    let d = digits_of(n);
    if n < 10 {
        assert(d.drop_last() =~= Seq::<char>::empty());
        assert(d.last() == digit_char(n));
        assert(decimal_value(d.drop_last()) == 0);
    } else {
        lemma_digits_write_the_number(n / 10);
        assert(d.drop_last() =~= digits_of(n / 10));
        assert(d.last() == digit_char(n % 10));
        assert forall|i: int| 0 <= i < d.len() implies is_digit(#[trigger] d[i]) by {
            if i < d.len() - 1 {
                assert(d[i] == digits_of(n / 10)[i]);
            }
        }
    }
}

/// The end of the piece that starts at `i`: the next position that holds `sep`, or the end of `s`.
pub open spec fn piece_end(s: Seq<char>, sep: char, i: int) -> int
    decreases s.len() - i,
{
    if 0 <= i < s.len() && s[i] != sep {
        piece_end(s, sep, i + 1)
    } else {
        i
    }
}

/// The numbers among the pieces into which `sep` cuts `s[start..]`, in order.
/// A piece that writes no number is passed over.
pub open spec fn numbers_from(s: Seq<char>, sep: char, start: int) -> Seq<u32>
    decreases s.len() - start,
{
    let end = piece_end(s, sep, start);
    let head = match parsed_u32(s.subrange(start, end)) {
        Some(n) => seq![n],
        None => Seq::empty(),
    };
    if start <= end < s.len() {
        head + numbers_from(s, sep, end + 1)
    } else {
        head
    }
}

/// The numbers among the pieces into which `sep` cuts `s`, in order.
pub open spec fn numbers_in(s: Seq<char>, sep: char) -> Seq<u32> {
    numbers_from(s, sep, 0)
}

/// Cuts `s` at each `sep` and reads each piece as a number; the pieces that
/// write none are passed over.
pub fn read_numbers(s: &str, sep: char) -> (r: Vec<u32>)
    ensures
        r@ == numbers_in(s@, sep),
{
    let chars = chars_of(s);
    let n: usize = chars.len();
    let mut out: Vec<u32> = Vec::new();
    let mut start: usize = 0;
    let mut done = false;
    while !done
        invariant
            n == chars@.len(),
            chars@ == s@,
            start <= n,
            !done ==> out@ + numbers_from(s@, sep, start as int) == numbers_in(s@, sep),
            done ==> out@ == numbers_in(s@, sep),
        decreases n - start + (if done { 0int } else { 1int }),
    {
        let mut end: usize = start;
        while end < n && chars[end] != sep
            invariant
                n == chars@.len(),
                chars@ == s@,
                start <= end <= n,
                piece_end(s@, sep, start as int) == piece_end(s@, sep, end as int),
            decreases n - end,
        {
            end += 1;
        }
        let ghost before = out@;
        match parse_number(&chars, start, end, 0xffff_ffff) {
            Some(v) => {
                out.push(v as u32);
            },
            None => {},
        }
        proof {
            let head = match parsed_u32(s@.subrange(start as int, end as int)) {
                Some(v) => seq![v],
                None => Seq::empty(),
            };
            assert(out@ == before + head);
            if end < n {
                assert(before + (head + numbers_from(s@, sep, end + 1)) == (before + head)
                    + numbers_from(s@, sep, end + 1));
            }
        }
        if end < n {
            start = end + 1;
        } else {
            done = true;
        }
    }
    out
}

} // verus!
