//! Deadlines: reading the stored RFC 3339 text as an instant in milliseconds
//! since the Unix epoch, and the delays derived from it.

use vstd::prelude::*;

verus! {

#[verifier::external_type_specification]
#[verifier::external_body]
pub struct ExParseError(chrono::ParseError);

/// The instant (milliseconds since the Unix epoch) and the canonical RFC 3339
/// text of a valid RFC 3339 timestamp; `None` for any other text.
pub uninterp spec fn rfc3339_instant(s: Seq<char>) -> Option<(int, Seq<char>)>;

/// The smallest delay after which a task is released.
pub const MIN_DELAY_MS: u64 = 100;

/// A parsed deadline.
#[derive(Clone, Debug)]
pub struct Instant {
    /// Milliseconds since the Unix epoch.
    pub millis: i64,
    /// The canonical RFC 3339 text, offset included.
    pub text: String,
}

/// Why an execution time is not accepted.
#[derive(Clone, Copy, Debug, PartialEq, Eq, Structural)]
pub enum TimeError {
    NotRfc3339,
    InPast,
}

/// Relies on chrono's `DateTime::parse_from_rfc3339`, whose success and value
/// depend on the text alone; the value is read with `timestamp_millis` and
/// written back with `to_rfc3339`.
#[verifier::external_body]
fn parse_rfc3339(s: &str) -> (r: Result<Instant, chrono::ParseError>)
    ensures
        match r {
            Ok(t) => rfc3339_instant(s@) == Some((t.millis as int, t.text@)),
            Err(_) => rfc3339_instant(s@) is None,
        },
{
    let t = chrono::DateTime::parse_from_rfc3339(s)?;
    Ok(Instant { millis: t.timestamp_millis(), text: t.to_rfc3339() })
}

/// Reads a stored or submitted execution time.
pub fn read_deadline(s: &str) -> (r: Result<Instant, TimeError>)
    ensures
        match r {
            Ok(t) => rfc3339_instant(s@) == Some((t.millis as int, t.text@)),
            Err(e) => e == TimeError::NotRfc3339 && rfc3339_instant(s@) is None,
        },
{
    match parse_rfc3339(s) {
        Ok(t) => Ok(t),
        Err(_) => Err(TimeError::NotRfc3339),
    }
}

/// The delay with which a pending task is scheduled at recovery: the time
/// left until its deadline, but never less than the minimum delay.
pub open spec fn recovery_delay(deadline_ms: int, now_ms: int) -> int {
    if deadline_ms - now_ms > MIN_DELAY_MS {
        deadline_ms - now_ms
    } else {
        MIN_DELAY_MS as int
    }
}

pub fn recovery_delay_ms(deadline_ms: i64, now_ms: i64) -> (r: u64)
    ensures
        r as int == recovery_delay(deadline_ms as int, now_ms as int),
        r >= MIN_DELAY_MS,
{
    let left: i128 = deadline_ms as i128 - now_ms as i128;
    if left > MIN_DELAY_MS as i128 {
        left as u64
    } else {
        MIN_DELAY_MS
    }
}

/// A deadline that has already passed at recovery is scheduled with the
/// minimum delay, never with a zero or negative one.
pub proof fn lemma_past_deadline_floored(deadline_ms: int, now_ms: int)
    requires
        deadline_ms <= now_ms,
    ensures
        recovery_delay(deadline_ms, now_ms) == MIN_DELAY_MS,
        recovery_delay(deadline_ms, now_ms) > 0,
{
}

/// The delay with which a freshly created task is scheduled: the time left
/// until its deadline, or `None` where the deadline has passed meanwhile.
pub fn creation_delay_ms(deadline_ms: i64, now_ms: i64) -> (r: Option<u64>)
    ensures
        deadline_ms >= now_ms <==> r is Some,
        r matches Some(d) ==> d as int == deadline_ms - now_ms,
{
    let left: i128 = deadline_ms as i128 - now_ms as i128;
    if left >= 0 {
        Some(left as u64)
    } else {
        None
    }
}

/// Whether a submitted execution time is acceptable at `now_ms`, and as what.
pub open spec fn checked_execution_time(s: Seq<char>, now_ms: int) -> Result<
    (int, Seq<char>),
    TimeError,
> {
    match rfc3339_instant(s) {
        None => Err(TimeError::NotRfc3339),
        Some((m, t)) => if m - now_ms <= 0 {
            Err(TimeError::InPast)
        } else {
            Ok((m, t))
        },
    }
}

/// Parses a submitted execution time and checks that it lies in the future.
pub fn validate_execution_time(s: &str, now_ms: i64) -> (r: Result<Instant, TimeError>)
    ensures
        match r {
            Ok(t) => checked_execution_time(s@, now_ms as int) == Ok::<(int, Seq<char>), TimeError>(
                (t.millis as int, t.text@),
            ),
            Err(e) => checked_execution_time(s@, now_ms as int) == Err::<(int, Seq<char>), TimeError>(e),
        },
{
    let t = read_deadline(s)?;
    if t.millis as i128 - now_ms as i128 <= 0 {
        return Err(TimeError::InPast);
    }
    Ok(t)
}

} // verus!
