use vstd::prelude::*;
use time::format_description::well_known::Iso8601;
use time::OffsetDateTime;

verus! {

/// Nanoseconds in thirty days: how far ahead `expires_at` is set.
pub const EXPIRY_NANOS: i128 = 2_592_000_000_000_000;

/// The ISO 8601 text of an instant given in nanoseconds since the Unix epoch,
/// or `None` where the time crate cannot represent or format it.
pub uninterp spec fn iso8601_of(unix_nanos: int) -> Option<Seq<char>>;

/// Relies on `time::OffsetDateTime::from_unix_timestamp_nanos` and
/// `OffsetDateTime::format(&Iso8601::DEFAULT)`: the UTC instant written in the
/// default ISO 8601 configuration, or an error where the instant is outside
/// the crate's date range or cannot be written in four-digit years.
#[verifier::external_body]
pub(crate) fn format_instant(unix_nanos: i128) -> (r: Option<String>)
    ensures
        r.is_some() == iso8601_of(unix_nanos as int).is_some(),
        r.is_some() ==> r.unwrap()@ == iso8601_of(unix_nanos as int).unwrap(),
{
    match OffsetDateTime::from_unix_timestamp_nanos(unix_nanos) {
        Ok(t) => t.format(&Iso8601::DEFAULT).ok(),
        Err(_) => None,
    }
}

/// Relies on `time::OffsetDateTime::now_utc` and `unix_timestamp_nanos`: the
/// current instant, in nanoseconds since the Unix epoch.
#[verifier::external_body]
pub(crate) fn now_unix_nanos() -> (r: i128) {
    OffsetDateTime::now_utc().unix_timestamp_nanos()
}

pub open spec fn is_lower_hex(c: char) -> bool {
    ('0' <= c && c <= '9') || ('a' <= c && c <= 'f')
}

/// A version-4 UUID in hyphenated lower-case form: 8-4-4-4-12 lower-case
/// hexadecimal digits, version digit `4`, variant digit one of `8 9 a b`.
pub open spec fn is_uuid_v4_text(s: Seq<char>) -> bool {
    &&& s.len() == 36
    &&& forall|i: int|
        0 <= i < 36 ==> if i == 8 || i == 13 || i == 18 || i == 23 {
            #[trigger] s[i] == '-'
        } else {
            is_lower_hex(s[i])
        }
    &&& s[14] == '4'
    &&& (s[19] == '8' || s[19] == '9' || s[19] == 'a' || s[19] == 'b')
}

/// Relies on `uuid::Uuid::new_v4` and its `Display`: random bits with the
/// version and variant bits masked in, written in the hyphenated lower-case
/// form.
#[verifier::external_body]
pub(crate) fn new_uuid() -> (r: String)
    ensures
        is_uuid_v4_text(r@),
{
    uuid::Uuid::new_v4().to_string()
}

/// The ISO 8601 text of an instant given in nanoseconds since the Unix epoch,
/// or `None` where it cannot be written.
pub fn instant_text(unix_nanos: i128) -> (r: Option<String>)
    ensures
        r.is_some() == iso8601_of(unix_nanos as int).is_some(),
        r.is_some() ==> r.unwrap()@ == iso8601_of(unix_nanos as int).unwrap(),
{
    format_instant(unix_nanos)
}

/// The instant thirty days after `now`, if it fits.
pub open spec fn expiry_of(now: int) -> int {
    now + EXPIRY_NANOS
}

pub fn expiry_instant(now: i128) -> (r: Option<i128>)
    ensures
        r.is_some() == (expiry_of(now as int) <= i128::MAX),
        r.is_some() ==> r.unwrap() == expiry_of(now as int),
{
    if now <= i128::MAX - EXPIRY_NANOS {
        Some(now + EXPIRY_NANOS)
    } else {
        None
    }
}

} // verus!
