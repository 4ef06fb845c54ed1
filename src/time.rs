use chrono::TimeZone;
use vstd::prelude::*;

verus! {

/// The RFC 3339 text of the UTC instant `secs` seconds after the Unix epoch,
/// or `None` where that instant is out of the calendar's range.
pub uninterp spec fn utc_rfc3339(secs: int) -> Option<Seq<char>>;

/// Relies on chrono's `Utc.timestamp_opt(secs, 0).single()` and
/// `DateTime::to_rfc3339`: the text of a whole-second Unix timestamp in UTC.
#[verifier::external_body]
pub(crate) fn rfc3339_from_secs(secs: i64) -> (r: Option<String>)
    ensures
        match r {
            Some(t) => utc_rfc3339(secs as int) == Some(t@),
            None => utc_rfc3339(secs as int) is None,
        },
{
    chrono::Utc.timestamp_opt(secs, 0).single().map(|d| d.to_rfc3339())
}

} // verus!
