//! Percent-encoding of text for use inside a URL, through the
//! `percent_encoding` crate.

use vstd::prelude::*;

verus! {

/// An ASCII letter or digit, as a byte.
pub open spec fn is_ascii_alphanumeric_byte(b: u8) -> bool {
    ||| 0x30 <= b <= 0x39
    ||| 0x41 <= b <= 0x5A
    ||| 0x61 <= b <= 0x7A
}

/// An ASCII letter or digit.
pub open spec fn is_ascii_alphanumeric_char(c: char) -> bool {
    ||| '0' <= c <= '9'
    ||| 'A' <= c <= 'Z'
    ||| 'a' <= c <= 'z'
}

/// The upper-case hexadecimal digit for `n` (below 16).
pub open spec fn hex_digit_upper(n: u8) -> char {
    if n < 10 {
        (0x30 + n) as char
    } else {
        (0x41 + n - 10) as char
    }
}

/// One byte, percent-encoded with every byte but ASCII letters and digits
/// replaced by `%` and its two upper-case hexadecimal digits.
pub open spec fn percent_encode_byte_text(b: u8) -> Seq<char> {
    if is_ascii_alphanumeric_byte(b) {
        seq![b as char]
    } else {
        seq!['%', hex_digit_upper(b / 16), hex_digit_upper(b % 16)]
    }
}

/// A byte string, percent-encoded byte by byte.
pub open spec fn percent_encoded(bytes: Seq<u8>) -> Seq<char>
    decreases bytes.len(),
{
    if bytes.len() == 0 {
        Seq::empty()
    } else {
        percent_encode_byte_text(bytes[0]) + percent_encoded(bytes.drop_first())
    }
}

/// The text `s`, percent-encoded over its UTF-8 bytes.
pub open spec fn percent_encoded_text(s: Seq<char>) -> Seq<char> {
    percent_encoded(vstd::utf8::encode_utf8(s))
}

/// Calls `percent_encoding::utf8_percent_encode` with the set
/// `NON_ALPHANUMERIC` and renders the result with `to_string`. The crate's
/// source encodes every byte of the UTF-8 encoding that is not an ASCII
/// letter or digit as `%` followed by two upper-case hexadecimal digits and
/// copies the other bytes unchanged; the contract claims exactly that.
#[verifier::external_body]
pub(crate) fn utf8_percent_encode_non_alphanumeric(s: &str) -> (r: String)
    ensures
        r@ == percent_encoded_text(s@),
{
    percent_encoding::utf8_percent_encode(s, percent_encoding::NON_ALPHANUMERIC).to_string()
}

/// Percent-encoded text holds only ASCII letters, digits and `%`, so it
/// cannot end a query value or start another (no `&`, `=`, `#`, `?`, space).
pub proof fn percent_encoded_is_url_safe(bytes: Seq<u8>)
    ensures
        forall|i: int|
            0 <= i < percent_encoded(bytes).len() ==> is_ascii_alphanumeric_char(
                #[trigger] percent_encoded(bytes)[i],
            ) || percent_encoded(bytes)[i] == '%',
    decreases bytes.len(),
{
    if bytes.len() > 0 {
        percent_encoded_is_url_safe(bytes.drop_first());
        let head = percent_encode_byte_text(bytes[0]);
        let b = bytes[0];
        assert(b / 16 < 16 && b % 16 < 16);
        assert forall|i: int| 0 <= i < head.len() implies is_ascii_alphanumeric_char(
            #[trigger] head[i],
        ) || head[i] == '%' by {}
        let rest = percent_encoded(bytes.drop_first());
        assert forall|i: int|
            0 <= i < percent_encoded(bytes).len() implies is_ascii_alphanumeric_char(
            #[trigger] percent_encoded(bytes)[i],
        ) || percent_encoded(bytes)[i] == '%' by {
            if i < head.len() {
                assert(percent_encoded(bytes)[i] == head[i]);
            } else {
                assert(percent_encoded(bytes)[i] == rest[i - head.len()]);
            }
        }
    }
}

} // verus!
