//! How a text is written into the query of a request.

use vstd::prelude::*;
use vstd::utf8::encode_utf8;

verus! {

/// Whether a byte stands for itself in the query of a request: the letters
/// and digits of ASCII, and `*`, `-`, `.`, `_`.
pub open spec fn is_unchanged(b: u8) -> bool {
    ||| b == 0x2a
    ||| b == 0x2d
    ||| b == 0x2e
    ||| 0x30 <= b <= 0x39
    ||| 0x41 <= b <= 0x5a
    ||| b == 0x5f
    ||| 0x61 <= b <= 0x7a
}

/// The digit of base 16 that writes `n`, a capital letter from 10 on.
pub open spec fn hex_digit(n: int) -> char {
    if n < 10 {
        (0x30 + n) as char
    } else {
        (0x41 + n - 10) as char
    }
}

/// How one byte is written into the query of a request: as itself, a space
/// as `+`, any other as `%` and its two digits of base 16.
pub open spec fn encoded_byte(b: u8) -> Seq<char> {
    if is_unchanged(b) {
        seq![b as char]
    } else if b == 0x20 {
        seq!['+']
    } else {
        seq!['%', hex_digit(b as int / 16), hex_digit(b as int % 16)]
    }
}

/// How a string of bytes is written into the query of a request.
pub open spec fn form_encoded(bytes: Seq<u8>) -> Seq<char>
    decreases bytes.len(),
{
    if bytes.len() == 0 {
        Seq::empty()
    } else {
        form_encoded(bytes.drop_last()) + encoded_byte(bytes.last())
    }
}

/// How a text is written into the query of a request: its bytes in UTF-8,
/// byte by byte.
pub open spec fn query_text(s: Seq<char>) -> Seq<char> {
    form_encoded(encode_utf8(s))
}

/// Has the url crate's `form_urlencoded::byte_serialize` write the bytes of
/// `s`, which are its UTF-8, for the query of a request, and collects the pieces. Byte by byte: the
/// letters and digits of ASCII and `*`, `-`, `.`, `_` stay, a space becomes
/// `+`, any other byte becomes `%` and its two digits of base 16, in capitals.
#[verifier::external_body]
pub(crate) fn form_urlencode(s: &str) -> (r: String)
    ensures
        r@ == query_text(s@),
{
    url::form_urlencoded::byte_serialize(s.as_bytes()).collect()
}

} // verus!
