//! Points in time, read and written through `chrono`.
use vstd::prelude::*;

verus! {

/// The first second, counted from the Unix epoch, that a `chrono` date can hold.
pub const FIRST_SECOND: i64 = -8334601228800;

/// The last second, counted from the Unix epoch, that a `chrono` date can hold.
pub const LAST_SECOND: i64 = 8210266876799;

/// A point in time: seconds since the Unix epoch and nanoseconds within the second.
#[derive(Clone, Copy, Debug, PartialEq, Eq)]
pub struct Timestamp {
    pub seconds: i64,
    pub nanos: u32,
}

impl Timestamp {
    /// The point in time can be held by a `chrono` date.
    pub open spec fn wf(self) -> bool {
        &&& FIRST_SECOND <= self.seconds <= LAST_SECOND
        &&& self.nanos < 1_000_000_000
    }

    /// The point in time `seconds` later can be held as well.
    pub open spec fn reaches(self, seconds: int) -> bool {
        FIRST_SECOND <= self.seconds + seconds <= LAST_SECOND
    }

    /// The text of the point in time `seconds` later.
    pub open spec fn text_after(self, seconds: int) -> Seq<char> {
        rfc3339_text(self.seconds + seconds, self.nanos as int)
    }
}

/// The text that `chrono` writes for a point in time in UTC:
/// what `DateTime::<Utc>::to_rfc3339` returns.
pub uninterp spec fn rfc3339_text(seconds: int, nanos: int) -> Seq<char>;

/// Calls `chrono::Utc::now`.
///
/// The reading of the clock is a date that `chrono` can hold and not before the
/// Unix epoch. Nothing else is claimed of it.
#[verifier::external_body]
pub(crate) fn utc_now() -> (now: Timestamp)
    ensures
        now.wf(),
        now.seconds >= 0,
{
    let now = chrono::Utc::now();
    Timestamp { seconds: now.timestamp(), nanos: now.timestamp_subsec_nanos() }
}

/// Adds a `chrono::Duration` of whole seconds to a `chrono::DateTime<Utc>`.
///
/// The sum is that many seconds later, with the same fraction of a second.
#[verifier::external_body]
pub(crate) fn plus_seconds(at: Timestamp, seconds: i64) -> (later: Timestamp)
    requires
        at.wf(),
        at.reaches(seconds as int),
    ensures
        later.seconds == at.seconds + seconds,
        later.nanos == at.nanos,
{
    let start = chrono::DateTime::from_timestamp(at.seconds, at.nanos).unwrap();
    let later = start + chrono::Duration::seconds(seconds);
    Timestamp { seconds: later.timestamp(), nanos: later.timestamp_subsec_nanos() }
}

/// Calls `chrono::DateTime::<Utc>::to_rfc3339`.
///
/// The text is named by the point in time.
#[verifier::external_body]
pub(crate) fn to_rfc3339(at: Timestamp) -> (text: String)
    requires
        at.wf(),
    ensures
        text@ == rfc3339_text(at.seconds as int, at.nanos as int),
{
    chrono::DateTime::from_timestamp(at.seconds, at.nanos).unwrap().to_rfc3339()
}

/// `now` is what a reading of the clock gave: it comes from a call of [`utc_now`].
pub closed spec fn is_clock_reading(now: Timestamp) -> bool {
    call_ensures(utc_now, (), now)
}

/// A reading of the clock is nothing but what a call of [`utc_now`] returned.
proof fn law_reading_comes_from_the_clock(now: Timestamp)
    ensures
        is_clock_reading(now) <==> call_ensures(utc_now, (), now),
        is_clock_reading(now) ==> 0 <= now.seconds <= 8210266876799 && now.nanos < 1_000_000_000,
{
}

/// Reads the clock.
pub fn current_time() -> (now: Timestamp)
    ensures
        is_clock_reading(now),
        now.wf(),
        now.seconds >= 0,
{
    utc_now()
}

/// Tests whether the point in time `seconds` after `at` can be held.
pub fn reaches(at: Timestamp, seconds: i64) -> (r: bool)
    ensures
        r == at.reaches(seconds as int),
{
    let sum: i128 = at.seconds as i128 + seconds as i128;
    FIRST_SECOND as i128 <= sum && sum <= LAST_SECOND as i128
}

/// The text of the point in time `seconds` after `at`.
pub fn expiry_text(at: Timestamp, seconds: i64) -> (r: String)
    requires
        at.wf(),
        at.reaches(seconds as int),
    ensures
        r@ == at.text_after(seconds as int),
{
    to_rfc3339(plus_seconds(at, seconds))
}

} // verus!
