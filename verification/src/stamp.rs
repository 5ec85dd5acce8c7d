//! Identifiers and timestamps, which come from the system's random source and clock.
use vstd::prelude::*;

verus! {

/// Whether chrono reads the text as a UTC timestamp (a relaxed form of
/// RFC 3339, as `<DateTime<Utc> as FromStr>::from_str` accepts).
pub uninterp spec fn reads_as_utc_timestamp(s: Seq<char>) -> bool;

/// A lower-case hexadecimal digit.
pub open spec fn lower_hex_digit(c: char) -> bool {
    (0x30 <= (c as u32) <= 0x39) || (0x61 <= (c as u32) <= 0x66)
}

/// The hyphenated lower-case text of a random (version 4, RFC 4122 variant)
/// UUID: 36 characters, hyphens at 8, 13, 18 and 23, hexadecimal digits
/// elsewhere, the version digit `4` at 14 and one of `8`, `9`, `a`, `b` at 19.
pub open spec fn uuid_v4_text(s: Seq<char>) -> bool {
    &&& s.len() == 36
    &&& forall|i: int|
        0 <= i < 36 ==> if i == 8 || i == 13 || i == 18 || i == 23 {
            #[trigger] s[i] == '-'
        } else {
            lower_hex_digit(s[i])
        }
    &&& s[14] == '4'
    &&& (s[19] == '8' || s[19] == '9' || s[19] == 'a' || s[19] == 'b')
}

/// Calls `uuid::Uuid::new_v4` and renders the identifier with `Display`,
/// which writes the hyphenated lower-case form; `new_v4` sets the version
/// bits to 4 and the variant bits to RFC 4122. The other 122 bits are random:
/// nothing more is stated of them.
#[verifier::external_body]
pub(crate) fn new_id() -> (id: String)
    ensures
        uuid_v4_text(id@),
{
    uuid::Uuid::new_v4().to_string()
}

/// Calls `chrono::Utc::now` and renders the instant with `to_rfc3339`, which
/// chrono reads back as a UTC timestamp. The clock's reading is not stated.
#[verifier::external_body]
pub(crate) fn utc_now() -> (t: String)
    ensures
        reads_as_utc_timestamp(t@),
{
    chrono::Utc::now().to_rfc3339()
}

/// Calls `<DateTime<Utc> as FromStr>::from_str` and reports whether it
/// succeeded: exactly on the texts named by `reads_as_utc_timestamp`.
#[verifier::external_body]
pub(crate) fn is_utc_timestamp(s: &str) -> (ok: bool)
    ensures
        ok == reads_as_utc_timestamp(s@),
{
    s.parse::<chrono::DateTime<chrono::Utc>>().is_ok()
}

} // verus!
