//! Cycle timestamps in RFC 3339 form.
use vstd::prelude::*;

use time::format_description::well_known::Rfc3339;
use time::OffsetDateTime;

verus! {

/// Nanoseconds from the Unix epoch to 0000-01-01T00:00:00Z.
pub const FIRST_STAMPABLE_NANOS: i128 = -62_167_219_200_000_000_000;

/// Nanoseconds from the Unix epoch to 10000-01-01T00:00:00Z.
pub const END_STAMPABLE_NANOS: i128 = 253_402_300_800_000_000_000;

/// The RFC 3339 text of the UTC instant this many nanoseconds after the epoch.
pub uninterp spec fn rfc3339_text(unix_nanos: int) -> Seq<char>;

/// Instants whose year has four digits, the ones RFC 3339 can write.
pub open spec fn stampable(unix_nanos: int) -> bool {
    FIRST_STAMPABLE_NANOS <= unix_nanos < END_STAMPABLE_NANOS
}

/// Relies on time's `OffsetDateTime::from_unix_timestamp_nanos` and on its
/// `format` with `Rfc3339`, which fails exactly for a year outside 0..=9999
/// (an offset is never at fault here, as it is UTC).
#[verifier::external_body]
fn format_rfc3339(unix_nanos: i128) -> (r: Option<String>)
    ensures
        r is Some <==> stampable(unix_nanos as int),
        r matches Some(s) ==> s@ == rfc3339_text(unix_nanos as int),
{
    match OffsetDateTime::from_unix_timestamp_nanos(unix_nanos) {
        Ok(t) => t.format(&Rfc3339).ok(),
        Err(_) => None,
    }
}

/// The timestamp of a cycle that starts at the given instant, or `None` for an
/// instant that RFC 3339 cannot write.
pub fn timestamp_at(unix_nanos: i128) -> (r: Option<String>)
    ensures
        r is Some <==> stampable(unix_nanos as int),
        r matches Some(s) ==> s@ == rfc3339_text(unix_nanos as int),
{
    format_rfc3339(unix_nanos)
}

} // verus!
