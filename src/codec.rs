//! Base64 and decimal conversions used on the wire.
use vstd::prelude::*;

verus! {

/// What the standard (padded) base64 alphabet decodes `s` to, if it is valid.
pub uninterp spec fn b64_standard(s: Seq<char>) -> Option<Seq<u8>>;

/// What the URL-safe base64 alphabet without padding decodes `s` to, if it is valid.
pub uninterp spec fn b64_url_no_pad(s: Seq<char>) -> Option<Seq<u8>>;

/// What the standard base64 alphabet without padding decodes `s` to, if it is valid.
pub uninterp spec fn b64_standard_no_pad(s: Seq<char>) -> Option<Seq<u8>>;

/// The standard (padded) base64 text of `b`.
pub uninterp spec fn b64_encoded(b: Seq<u8>) -> Seq<char>;

/// Relies on base64's `general_purpose::STANDARD.decode`: the bytes that `s` encodes.
#[verifier::external_body]
pub(crate) fn decode_standard(s: &str) -> (r: Option<Vec<u8>>)
    ensures
        match r {
            Some(b) => b64_standard(s@) == Some(b@),
            None => b64_standard(s@) is None,
        },
{
    base64::Engine::decode(&base64::engine::general_purpose::STANDARD, s).ok()
}

/// Relies on base64's `general_purpose::URL_SAFE_NO_PAD.decode`: the bytes that `s` encodes.
#[verifier::external_body]
pub(crate) fn decode_url_no_pad(s: &str) -> (r: Option<Vec<u8>>)
    ensures
        match r {
            Some(b) => b64_url_no_pad(s@) == Some(b@),
            None => b64_url_no_pad(s@) is None,
        },
{
    base64::Engine::decode(&base64::engine::general_purpose::URL_SAFE_NO_PAD, s).ok()
}

/// Relies on base64's `general_purpose::STANDARD_NO_PAD.decode`: the bytes that `s` encodes.
#[verifier::external_body]
pub(crate) fn decode_standard_no_pad(s: &str) -> (r: Option<Vec<u8>>)
    ensures
        match r {
            Some(b) => b64_standard_no_pad(s@) == Some(b@),
            None => b64_standard_no_pad(s@) is None,
        },
{
    base64::Engine::decode(&base64::engine::general_purpose::STANDARD_NO_PAD, s).ok()
}

/// Relies on base64's `general_purpose::STANDARD.encode`: the padded base64 text of `b`.
#[verifier::external_body]
pub(crate) fn encode_standard(b: &[u8]) -> (r: String)
    ensures
        r@ == b64_encoded(b@),
{
    base64::Engine::encode(&base64::engine::general_purpose::STANDARD, b)
}

/// The decimal digit character for `d < 10`.
pub open spec fn digit_char(d: nat) -> char {
    ((d + 48) as u8) as char
}

/// The decimal text of `n`, without sign or leading zeros.
pub open spec fn dec_text(n: nat) -> Seq<char>
    decreases n,
{
    if n < 10 {
        seq![digit_char(n)]
    } else {
        dec_text(n / 10).push(digit_char(n % 10))
    }
}

/// Relies on `u64`'s `Display` through `to_string`: its decimal text.
#[verifier::external_body]
pub(crate) fn u64_text(n: u64) -> (r: String)
    ensures
        r@ == dec_text(n as nat),
{
    n.to_string()
}

/// Every character of `s` is an ASCII decimal digit.
pub open spec fn all_digits(s: Seq<char>) -> bool {
    forall|i: int| 0 <= i < s.len() ==> '0' <= #[trigger] s[i] <= '9'
}

/// The number that the decimal digits `s` spell.
pub open spec fn digits_value(s: Seq<char>) -> nat
    decreases s.len(),
{
    if s.len() == 0 {
        0
    } else {
        digits_value(s.drop_last()) * 10 + ((s.last() as u32) - 48) as nat
    }
}

/// What `u64::from_str` accepts: an optional `+`, then one or more digits, of a value that fits.
pub open spec fn parsed_u64(s: Seq<char>) -> Option<u64> {
    let d = if s.len() > 0 && s[0] == '+' {
        s.drop_first()
    } else {
        s
    };
    if d.len() > 0 && all_digits(d) && digits_value(d) <= u64::MAX {
        Some(digits_value(d) as u64)
    } else {
        None
    }
}

/// Relies on `str::parse::<u64>`: decimal digits with an optional `+`, refused on overflow.
#[verifier::external_body]
pub(crate) fn parse_u64(s: &str) -> (r: Option<u64>)
    ensures
        r == parsed_u64(s@),
{
    s.parse::<u64>().ok()
}

/// What `str::to_lowercase` gives for `s`.
pub uninterp spec fn lower_of(s: Seq<char>) -> Seq<char>;

/// Relies on `str::to_lowercase`: the result depends on the characters alone.
#[verifier::external_body]
pub(crate) fn lowercase(s: &str) -> (r: String)
    ensures
        r@ == lower_of(s@),
{
    s.to_lowercase()
}

} // verus!
