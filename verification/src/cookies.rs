//! The cookies of a session.
//!
//! The reply to a request for an identifier sets cookies, and the requests
//! for the data have to bring them back. What is brought back is the set of
//! the pairs `name=value`: each pair once, in the order of their texts, with
//! `"; "` between them.

use crate::text::{chars_of, join, joined, string_of, views_of};
use vstd::prelude::*;

verus! {

/// Whether `a` and `b` are as long as `k` at least and hold the same first
/// `k` characters.
pub open spec fn agree(a: Seq<char>, b: Seq<char>, k: int) -> bool {
    &&& 0 <= k <= a.len()
    &&& k <= b.len()
    &&& forall|j: int| 0 <= j < k ==> a[j] == b[j]
}

/// Whether `a` comes before `b` in the order of texts: where they first
/// differ, `a` has ended, or has the character that comes first in Unicode.
pub open spec fn comes_before(a: Seq<char>, b: Seq<char>) -> bool {
    exists|k: int| #[trigger]
        agree(a, b, k) && k < b.len() && (k == a.len() || a[k] < b[k])
}

/// Whether the texts stand in their order, each once.
pub open spec fn is_ordered(s: Seq<Seq<char>>) -> bool {
    forall|i: int, j: int| 0 <= i < j < s.len() ==> comes_before(#[trigger] s[i], #[trigger] s[j])
}

/// Whether the texts of `s` are those of `set`.
pub open spec fn holds_exactly(s: Seq<Seq<char>>, set: Set<Seq<char>>) -> bool {
    forall|x: Seq<char>| s.contains(x) <==> set.contains(x)
}

/// The texts of a set in their order, each once.
pub open spec fn ordered(set: Set<Seq<char>>) -> Seq<Seq<char>> {
    choose|s: Seq<Seq<char>>| is_ordered(s) && holds_exactly(s, set)
}

/// A cookie as it is sent back: name and value with `=` between them.
pub open spec fn pair_text(cookie: (String, String)) -> Seq<char> {
    cookie.0@ + seq!['='] + cookie.1@
}

/// The pairs that the cookies make, as a set.
pub open spec fn cookie_set(cookies: Seq<(String, String)>) -> Set<Seq<char>> {
    Set::new(
        |x: Seq<char>| exists|i: int| 0 <= i < cookies.len() && x == pair_text(#[trigger] cookies[i]),
    )
}

/// The value of the header that brings the cookies back.
pub open spec fn cookie_text(cookies: Seq<(String, String)>) -> Seq<char> {
    joined(ordered(cookie_set(cookies)), "; "@)
}

/// No text comes before itself.
pub proof fn lemma_never_before_itself(a: Seq<char>)
    ensures
        !comes_before(a, a),
{
}

/// What comes before a text comes before all that the text comes before.
pub proof fn lemma_before_is_transitive(a: Seq<char>, b: Seq<char>, c: Seq<char>)
    requires
        comes_before(a, b),
        comes_before(b, c),
    ensures
        comes_before(a, c),
{
    let k1 = choose|k: int| #[trigger]
        agree(a, b, k) && k < b.len() && (k == a.len() || a[k] < b[k]);
    let k2 = choose|k: int| #[trigger]
        agree(b, c, k) && k < c.len() && (k == b.len() || b[k] < c[k]);
    if k1 <= k2 {
        assert(agree(a, c, k1));
    } else {
        assert(agree(a, c, k2));
    }
}

/// Two sequences of texts in their order that hold the same texts are the
/// same sequence.
pub proof fn lemma_ordered_is_unique(s: Seq<Seq<char>>, t: Seq<Seq<char>>)
    requires
        is_ordered(s),
        is_ordered(t),
        forall|x: Seq<char>| s.contains(x) <==> t.contains(x),
    ensures
        s == t,
    decreases s.len(),
{
    if s.len() == 0 {
        if t.len() > 0 {
            assert(t.contains(t[0]));
        }
        assert(s =~= t);
    } else {
        assert(s.contains(s[0]));
        let j = choose|j: int| 0 <= j < t.len() && t[j] == s[0];
        assert(t.contains(t[0]));
        let i = choose|i: int| 0 <= i < s.len() && s[i] == t[0];
        if j > 0 {
            lemma_never_before_itself(t[0]);
            if i > 0 {
                lemma_before_is_transitive(t[0], s[0], s[i]);
            }
        }
        assert(s[0] == t[0]);
        let s1 = s.skip(1);
        let t1 = t.skip(1);
        assert forall|x: Seq<char>| s1.contains(x) <==> t1.contains(x) by {
            lemma_never_before_itself(s[0]);
            if s1.contains(x) {
                let p = choose|p: int| 0 <= p < s1.len() && s1[p] == x;
                assert(s[p + 1] == x);
                assert(s.contains(x));
                let q = choose|q: int| 0 <= q < t.len() && t[q] == x;
                assert(q > 0);
                assert(t1[q - 1] == x);
            }
            if t1.contains(x) {
                let p = choose|p: int| 0 <= p < t1.len() && t1[p] == x;
                assert(t[p + 1] == x);
                assert(t.contains(x));
                let q = choose|q: int| 0 <= q < s.len() && s[q] == x;
                assert(q > 0);
                assert(s1[q - 1] == x);
            }
        }
        assert(is_ordered(s1)) by {
            assert forall|a: int, b: int| 0 <= a < b < s1.len() implies comes_before(
                #[trigger] s1[a],
                #[trigger] s1[b],
            ) by {
                assert(comes_before(s[a + 1], s[b + 1]));
            }
        }
        assert(is_ordered(t1)) by {
            assert forall|a: int, b: int| 0 <= a < b < t1.len() implies comes_before(
                #[trigger] t1[a],
                #[trigger] t1[b],
            ) by {
                assert(comes_before(t[a + 1], t[b + 1]));
            }
        }
        lemma_ordered_is_unique(s1, t1);
        assert(s =~= t) by {
            assert forall|k: int| 0 <= k < s.len() implies s[k] == t[k] by {
                if k > 0 {
                    assert(s1[k - 1] == s[k]);
                    assert(t1[k - 1] == t[k]);
                }
            }
            assert(s.len() == s1.len() + 1);
            assert(t.len() == t1.len() + 1);
        }
    }
}

/// How two texts stand to each other in the order of texts.
pub enum Place {
    Before,
    Same,
    After,
}

/// Says how `a` stands to `b` in the order of texts.
pub fn place_of(a: &Vec<char>, b: &Vec<char>) -> (r: Place)
    ensures
        match r {
            Place::Before => comes_before(a@, b@),
            Place::Same => a@ == b@,
            Place::After => comes_before(b@, a@),
        },
{
    let n: usize = a.len();
    let m: usize = b.len();
    let mut k: usize = 0;
    while k < n && k < m
        invariant
            n == a@.len(),
            m == b@.len(),
            agree(a@, b@, k as int),
        decreases n - k,
    {
        if a[k] < b[k] {
            assert(agree(a@, b@, k as int) && k < b@.len() && a@[k as int] < b@[k as int]);
            return Place::Before;
        }
        if b[k] < a[k] {
            assert(agree(b@, a@, k as int) && k < a@.len() && b@[k as int] < a@[k as int]);
            return Place::After;
        }
        k += 1;
    }
    if k < m {
        assert(agree(a@, b@, k as int));
        Place::Before
    } else if k < n {
        assert(agree(b@, a@, k as int));
        Place::After
    } else {
        assert(a@ =~= b@);
        Place::Same
    }
}

/// The texts of a list of texts.
pub open spec fn texts_of(list: Seq<Vec<char>>) -> Seq<Seq<char>> {
    Seq::new(list.len(), |i: int| list[i]@)
}

/// Puts `x` into a list of texts that stand in their order, unless the list
/// holds it already.
pub fn insert_ordered(list: &mut Vec<Vec<char>>, x: Vec<char>)
    requires
        is_ordered(texts_of(old(list)@)),
    ensures
        is_ordered(texts_of(final(list)@)),
        forall|y: Seq<char>|
            texts_of(final(list)@).contains(y) <==> (texts_of(old(list)@).contains(y) || y == x@),
{
    let ghost before = texts_of(list@);
    let n: usize = list.len();
    let mut i: usize = 0;
    let mut found = false;
    while i < n && !found
        invariant
            n == list@.len(),
            i <= n,
            before == texts_of(list@),
            list@ == old(list)@,
            is_ordered(before),
            forall|k: int| 0 <= k < i ==> comes_before(#[trigger] before[k], x@),
            found ==> i < n && comes_before(x@, before[i as int]),
        decreases n - i + (if found { 0int } else { 1int }),
    {
        assert(before[i as int] == list@[i as int]@);
        match place_of(&list[i], &x) {
            Place::Before => {
                i += 1;
            },
            Place::Same => {
                proof {
                    assert(before.contains(x@));
                }
                return ;
            },
            Place::After => {
                found = true;
            },
        }
    }
    let ghost xs = x@;
    list.insert(i, x);
    proof {
        let after = texts_of(list@);
        assert(after =~= before.insert(i as int, xs));
        assert(i < n ==> comes_before(xs, before[i as int]));
        assert forall|a: int, b: int| 0 <= a < b < after.len() implies comes_before(
            #[trigger] after[a],
            #[trigger] after[b],
        ) by {
            if b < i {
                assert(after[a] == before[a] && after[b] == before[b]);
            } else if b == i {
                assert(after[a] == before[a]);
            } else if a < i {
                assert(after[a] == before[a] && after[b] == before[b - 1]);
            } else if a == i {
                assert(after[b] == before[b - 1]);
                if b - 1 > i {
                    lemma_before_is_transitive(xs, before[i as int], before[b - 1]);
                }
            } else {
                assert(after[a] == before[a - 1] && after[b] == before[b - 1]);
            }
        }
        assert forall|y: Seq<char>| after.contains(y) <==> (before.contains(y) || y == xs) by {
            if after.contains(y) {
                let p = choose|p: int| 0 <= p < after.len() && after[p] == y;
                if p < i {
                    assert(before[p] == y);
                } else if p > i {
                    assert(before[p - 1] == y);
                }
            }
            if before.contains(y) {
                let p = choose|p: int| 0 <= p < before.len() && before[p] == y;
                if p < i {
                    assert(after[p] == y);
                } else {
                    assert(after[p + 1] == y);
                }
            }
            if y == xs {
                assert(after[i as int] == y);
            }
        }
    }
}

/// The value of the header that brings the cookies back: each pair
/// `name=value` once, in the order of their texts, with `"; "` between them.
pub fn get_cookies_string(cookies: &Vec<(String, String)>) -> (r: String)
    ensures
        r@ == cookie_text(cookies@),
        is_ordered(ordered(cookie_set(cookies@))),
        holds_exactly(ordered(cookie_set(cookies@)), cookie_set(cookies@)),
{
    let mut list: Vec<Vec<char>> = Vec::new();
    let n: usize = cookies.len();
    let mut i: usize = 0;
    while i < n
        invariant
            n == cookies@.len(),
            i <= n,
            is_ordered(texts_of(list@)),
            forall|y: Seq<char>|
                texts_of(list@).contains(y) <==> exists|k: int|
                    0 <= k < i && y == pair_text(#[trigger] cookies@[k]),
        decreases n - i,
    {
        let mut pair = chars_of(cookies[i].0.as_str());
        pair.push('=');
        let mut value = chars_of(cookies[i].1.as_str());
        pair.append(&mut value);
        assert(pair@ =~= pair_text(cookies@[i as int]));
        let ghost before = texts_of(list@);
        insert_ordered(&mut list, pair);
        proof {
            assert forall|y: Seq<char>| texts_of(list@).contains(y) <==> exists|k: int|
                0 <= k < i + 1 && y == pair_text(#[trigger] cookies@[k]) by {
                if before.contains(y) {
                    let k = choose|k: int| 0 <= k < i && y == pair_text(#[trigger] cookies@[k]);
                    assert(0 <= k < i + 1 && y == pair_text(cookies@[k]));
                }
                if exists|k: int| 0 <= k < i + 1 && y == pair_text(#[trigger] cookies@[k]) {
                    let k = choose|k: int| 0 <= k < i + 1 && y == pair_text(#[trigger] cookies@[k]);
                    if k < i {
                        assert(before.contains(y));
                    }
                }
            }
        }
        i += 1;
    }
    let mut parts: Vec<String> = Vec::new();
    let m: usize = list.len();
    let mut j: usize = 0;
    while j < m
        invariant
            m == list@.len(),
            j <= m,
            parts@.len() == j,
            forall|k: int| 0 <= k < j ==> (#[trigger] parts@[k])@ == list@[k]@,
        decreases m - j,
    {
        let part = string_of(&list[j], 0, list[j].len());
        assert(list@[j as int]@.subrange(0, list@[j as int]@.len() as int) == list@[j as int]@);
        parts.push(part);
        j += 1;
    }
    proof {
        let texts = texts_of(list@);
        assert(views_of(parts@) =~= texts);
        assert(holds_exactly(texts, cookie_set(cookies@)));
        let chosen = ordered(cookie_set(cookies@));
        assert(is_ordered(chosen) && holds_exactly(chosen, cookie_set(cookies@)));
        lemma_ordered_is_unique(texts, chosen);
    }
    join(&parts, "; ")
}

/// The value of the header depends on the set of the pairs alone: neither
/// the order in which the cookies come nor how often a pair comes changes it.
/// Two lists of cookies, each of whose pairs is a pair of the other, give the
/// same value.
pub proof fn lemma_cookie_text_by_pairs(a: Seq<(String, String)>, b: Seq<(String, String)>)
    requires
        forall|i: int| 0 <= i < a.len() ==> cookie_set(b).contains(#[trigger] pair_text(a[i])),
        forall|j: int| 0 <= j < b.len() ==> cookie_set(a).contains(#[trigger] pair_text(b[j])),
    ensures
        cookie_set(a) == cookie_set(b),
        cookie_text(a) == cookie_text(b),
{
    assert forall|x: Seq<char>| cookie_set(a).contains(x) <==> cookie_set(b).contains(x) by {
        if cookie_set(a).contains(x) {
            let i = choose|i: int| 0 <= i < a.len() && x == pair_text(#[trigger] a[i]);
            assert(cookie_set(b).contains(pair_text(a[i])));
        }
        if cookie_set(b).contains(x) {
            let j = choose|j: int| 0 <= j < b.len() && x == pair_text(#[trigger] b[j]);
            assert(cookie_set(a).contains(pair_text(b[j])));
        }
    }
    assert(cookie_set(a) =~= cookie_set(b));
}

} // verus!
