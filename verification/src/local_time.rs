//! Local time at a fixed offset from UTC.

use vstd::prelude::*;

verus! {

/// The moment `timestamp` seconds after the Unix epoch, on a clock that is
/// `offset` seconds ahead of UTC, in the form in which chrono displays a
/// `DateTime<FixedOffset>`: the date, the time of day and the offset. `None`
/// where chrono has no such offset or no such moment.
pub uninterp spec fn local_time_text(offset: int, timestamp: int) -> Option<Seq<char>>;

/// Displays a moment on a clock at a fixed offset, by chrono's
/// `FixedOffset::east_opt`, `TimeZone::timestamp_opt` and the `Display` of the
/// `DateTime` that they give.
///
/// Not proved: that the outcome is a function of the offset and the timestamp
/// alone, and that there is none for an offset of a day or more, which
/// `east_opt` refuses. Nothing is claimed of the text, nor of the timestamps
/// for which there is one.
#[verifier::external_body]
pub(crate) fn displayed_local_time(offset: i32, timestamp: i64) -> (r: Option<String>)
    ensures
        r is Some ==> local_time_text(offset as int, timestamp as int) == Some(r->Some_0@),
        r is None ==> local_time_text(offset as int, timestamp as int) is None,
        !(-86_400 < offset < 86_400) ==> r is None,
{
    let zone = chrono::FixedOffset::east_opt(offset)?;
    let moment = chrono::TimeZone::timestamp_opt(&zone, timestamp, 0).single()?;
    Some(moment.to_string())
}

} // verus!
