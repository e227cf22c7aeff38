//! Retry policy of the weather loop.
use vstd::prelude::*;

verus! {

/// The doubled retry delay, capped at `cap`.
pub open spec fn spec_next_backoff(backoff: u64, cap: u64) -> u64 {
    if 2 * backoff < cap {
        (2 * backoff) as u64
    } else {
        cap
    }
}

/// The retry delay after one more failure: `backoff` doubled, at most `cap`.
pub fn next_backoff(backoff: u64, cap: u64) -> (res: u64)
    requires
        backoff <= u64::MAX / 2,
    ensures
        res == spec_next_backoff(backoff, cap),
{
    let doubled = backoff * 2;
    if doubled < cap {
        doubled
    } else {
        cap
    }
}

/// What the weather loop does after one poll, and the retry delay it keeps.
#[derive(Debug, Clone, Copy, PartialEq, Eq, Structural)]
pub struct WeatherStep {
    /// Seconds to sleep before the next poll.
    pub sleep_s: u64,
    /// Retry delay to use after the next failure.
    pub backoff: u64,
}

/// The largest retry delay of the weather loop: the poll interval, but at
/// least 2 seconds.
pub open spec fn weather_backoff_cap(poll_interval_s: u64) -> u64 {
    if poll_interval_s > 2 {
        poll_interval_s
    } else {
        2
    }
}

/// The weather loop's decision after a poll: on success, sleep the poll
/// interval and reset the retry delay to 1 s; on failure, sleep the current
/// retry delay and double it, capped at `max(poll_interval_s, 2)`.
pub fn weather_step(backoff: u64, poll_ok: bool, poll_interval_s: u64) -> (step: WeatherStep)
    requires
        !poll_ok ==> backoff <= u64::MAX / 2,
    ensures
        poll_ok ==> step == (WeatherStep { sleep_s: poll_interval_s, backoff: 1 }),
        !poll_ok ==> step == (WeatherStep {
            sleep_s: backoff,
            backoff: spec_next_backoff(backoff, weather_backoff_cap(poll_interval_s)),
        }),
{
    if poll_ok {
        WeatherStep { sleep_s: poll_interval_s, backoff: 1 }
    } else {
        let cap = if poll_interval_s > 2 {
            poll_interval_s
        } else {
            2
        };
        WeatherStep { sleep_s: backoff, backoff: next_backoff(backoff, cap) }
    }
}

/// Starting from 1 s, the retry delay stays between 1 s and its cap, and
/// never shrinks while failures go on.
pub proof fn law_backoff_bounded(backoff: u64, cap: u64)
    requires
        1 <= backoff <= cap,
    ensures
        1 <= spec_next_backoff(backoff, cap) <= cap,
        backoff <= spec_next_backoff(backoff, cap),
{
}

/// After a failed poll the weather loop sleeps the current delay, then
/// doubles it, but never beyond the poll interval (and never below a cap of
/// 2 s): with the default 600 s interval the delays run 1, 2, 4, ..., 512,
/// 600. After a successful poll it sleeps the poll interval and restarts at 1 s.
pub proof fn law_weather_retry(backoff: u64, poll_interval_s: u64)
    requires
        1 <= backoff <= u64::MAX / 2,
    ensures
        ({
            let cap: int = if poll_interval_s >= 2 {
                poll_interval_s as int
            } else {
                2
            };
            let next = spec_next_backoff(backoff, weather_backoff_cap(poll_interval_s));
            &&& weather_backoff_cap(poll_interval_s) == cap
            &&& next <= cap
            &&& 2 * backoff <= cap ==> next == 2 * backoff
            &&& 2 * backoff >= cap ==> next == cap
        }),
{
}

/// The doubled delay never passes the cap, and is exactly twice the delay
/// while that stays within the cap.
pub proof fn law_next_backoff(backoff: u64, cap: u64)
    requires
        backoff <= u64::MAX / 2,
    ensures
        spec_next_backoff(backoff, cap) <= cap,
        2 * backoff <= cap ==> spec_next_backoff(backoff, cap) == 2 * backoff,
        2 * backoff >= cap ==> spec_next_backoff(backoff, cap) == cap,
{
}

} // verus!
