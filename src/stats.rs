//! Throughput statistics, reported once every hundred requests.

use vstd::prelude::*;

verus! {

/// Number of requests between two statistics lines.
pub const REPORT_INTERVAL: u64 = 100;

/// Request number `n` (counted from 1) is followed by a statistics line.
pub open spec fn is_report_point_spec(n: nat) -> bool {
    n > 0 && n % (REPORT_INTERVAL as nat) == 0
}

/// Whether a statistics line is due after request number `request_number`
/// (counted from 1): on requests 100, 200, 300, ... and on no other.
pub fn is_report_point(request_number: u64) -> (r: bool)
    ensures
        r == is_report_point_spec(request_number as nat),
{
    request_number > 0 && request_number % REPORT_INTERVAL == 0
}

/// One statistics line's worth of figures.
pub struct StatsReport {
    /// Requests made so far.
    pub requests: u64,
    /// Whole minutes elapsed.
    pub minutes: u64,
    /// Seconds elapsed beyond the whole minutes, below 60.
    pub seconds: u64,
    /// Requests per second in hundredths, rounded to the nearest hundredth
    /// (halves up); `None` when no whole second has elapsed yet, where no rate
    /// can be given.
    pub rate_hundredths: Option<u128>,
}

/// Figures for a statistics line after `requests` requests and
/// `elapsed_seconds` whole seconds of running time.
pub fn stats_report(requests: u64, elapsed_seconds: u64) -> (r: StatsReport)
    ensures
        r.requests == requests,
        r.minutes == elapsed_seconds / 60,
        r.seconds == elapsed_seconds % 60,
        elapsed_seconds == 0 ==> r.rate_hundredths.is_none(),
        elapsed_seconds > 0 ==> r.rate_hundredths == Some(
            ((requests as int * 200 + elapsed_seconds as int) / (2 * elapsed_seconds as int))
                as u128,
        ),
{
    let rate_hundredths = if elapsed_seconds == 0 {
        None
    } else {
        Some((requests as u128 * 200 + elapsed_seconds as u128) / (2 * elapsed_seconds as u128))
    };
    StatsReport {
        requests,
        minutes: elapsed_seconds / 60,
        seconds: elapsed_seconds % 60,
        rate_hundredths,
    }
}

} // verus!
