//! When the next synchronisation runs: every interval, or once a day at a
//! configured UTC time.
use vstd::prelude::*;
use crate::clock::{parse_time_of_day, parsed_time_of_day, utc_now_timestamp};
use crate::config::{AppConfig, SchedulerMode};

verus! {

/// Nanoseconds in a second.
pub open spec fn second_nanos() -> int {
    1_000_000_000
}

/// Nanoseconds in a day.
pub open spec fn day_nanos() -> int {
    86_400_000_000_000
}

/// The format of the daily time.
pub open spec fn daily_format() -> Seq<char> {
    "%H:%M:%S"@
}

/// The daily time as whole seconds after midnight and nanoseconds past that
/// second: the parsed time, or 03:00:00 when the text does not parse.
pub open spec fn daily_target(parsed: Option<(u32, u32)>) -> (u32, u32) {
    match parsed {
        Some(t) => t,
        None => (10_800, 0),
    }
}

/// Whether the time of day `(ts, tf)` comes after `(ns, nf)`: by whole
/// seconds first, then by nanoseconds, as chrono orders times.
pub open spec fn later(ts: int, tf: int, ns: int, nf: int) -> bool {
    ts > ns || (ts == ns && tf > nf)
}

/// How long to wait, in nanoseconds, from the time of day `(ns, nf)` until
/// the time of day `(ts, tf)`: until later today when the target is still
/// ahead; else until that time tomorrow, where a target inside a leap second
/// (`tf` of a second or more) loses the leap second, as chrono's addition of
/// a day does; a negative wait would become one minute.
pub open spec fn wait_nanos(ts: int, tf: int, ns: int, nf: int) -> int {
    if later(ts, tf, ns, nf) {
        (ts - ns) * second_nanos() + tf - nf
    } else {
        let tomorrow_frac = if tf >= second_nanos() {
            tf - second_nanos()
        } else {
            tf
        };
        let w = day_nanos() + (ts - ns) * second_nanos() + tomorrow_frac - nf;
        if w >= 0 {
            w
        } else {
            60 * second_nanos()
        }
    }
}

/// The wait from the time of day `(now_secs, now_nanos)` until the time of day
/// `(target_secs, target_nanos)`.
pub fn wait_until(target_secs: u32, target_nanos: u32, now_secs: u32, now_nanos: u32) -> (r: u64)
    requires
        target_secs < 86_400,
        target_nanos < 2_000_000_000,
        now_secs < 86_400,
        now_nanos < 1_000_000_000,
    ensures
        r == wait_nanos(target_secs as int, target_nanos as int, now_secs as int, now_nanos as int),
        0 < r <= day_nanos() + second_nanos(),
        target_nanos == 0 || target_nanos == 1_000_000_000 ==> r <= day_nanos(),
{
    let ts = target_secs as u64;
    let tf = target_nanos as u64;
    let ns = now_secs as u64;
    let nf = now_nanos as u64;
    if ts > ns || (ts == ns && tf > nf) {
        (ts - ns) * 1_000_000_000 + tf - nf
    } else {
        let tomorrow_frac: u64 = if tf >= 1_000_000_000 {
            tf - 1_000_000_000
        } else {
            tf
        };
        86_400_000_000_000 + ts * 1_000_000_000 + tomorrow_frac - ns * 1_000_000_000 - nf
    }
}

/// How long to wait until the next time of day `target_hms` (`HH:MM:SS`, UTC),
/// in nanoseconds; 03:00:00 when the text does not parse. The wait is measured
/// from the current time, which the clock gives.
pub fn seconds_until(target_hms: &str) -> (r: u64)
    ensures
        exists|ns: int, nf: int|
            0 <= ns < 86_400 && 0 <= nf < second_nanos() && r == wait_nanos(
                daily_target(parsed_time_of_day(target_hms@, daily_format())).0 as int,
                daily_target(parsed_time_of_day(target_hms@, daily_format())).1 as int,
                ns,
                nf,
            ),
        0 < r <= day_nanos(),
{
    let parsed = parse_time_of_day(target_hms, "%H:%M:%S");
    let (ts, tf) = match parsed {
        Some(t) => t,
        None => (10_800, 0),
    };
    proof {
        reveal_strlit("%H:%M:%S");
    }
    let (now_secs, nf) = utc_now_timestamp();
    let ns: u32 = (now_secs % 86_400) as u32;
    let r = wait_until(ts, tf, ns, nf);
    assert(0 <= ns < 86_400 && 0 <= nf < second_nanos() && r == wait_nanos(
        daily_target(parsed_time_of_day(target_hms@, daily_format())).0 as int,
        daily_target(parsed_time_of_day(target_hms@, daily_format())).1 as int,
        ns as int,
        nf as int,
    ));
    r
}

/// A daily wait is positive and never longer than a day and a second; the
/// one-minute fallback is never taken.
pub proof fn lemma_daily_wait_bounded(ts: int, tf: int, ns: int, nf: int)
    requires
        0 <= ts < 86_400,
        0 <= tf < 2 * second_nanos(),
        0 <= ns < 86_400,
        0 <= nf < second_nanos(),
    ensures
        0 < wait_nanos(ts, tf, ns, nf) <= day_nanos() + second_nanos(),
        !later(ts, tf, ns, nf) ==> wait_nanos(ts, tf, ns, nf) == day_nanos() + (ts - ns)
            * second_nanos() + (if tf >= second_nanos() { tf - second_nanos() } else { tf }) - nf,
{
}

/// A daily wait ends exactly at the target time of day: later today when
/// the target is still ahead, else at that time tomorrow.
pub proof fn lemma_daily_wait_lands_on_target(ts: int, tf: int, ns: int, nf: int)
    requires
        0 <= ts < 86_400,
        0 <= tf < second_nanos(),
        0 <= ns < 86_400,
        0 <= nf < second_nanos(),
    ensures
        ts * second_nanos() + tf > ns * second_nanos() + nf ==> ns * second_nanos() + nf
            + wait_nanos(ts, tf, ns, nf) == ts * second_nanos() + tf,
        ts * second_nanos() + tf <= ns * second_nanos() + nf ==> ns * second_nanos() + nf
            + wait_nanos(ts, tf, ns, nf) == ts * second_nanos() + tf + day_nanos(),
{
    assert(later(ts, tf, ns, nf) <==> ts * second_nanos() + tf > ns * second_nanos() + nf);
}

/// What the scheduler does in one round.
#[derive(Debug, Clone, Copy, PartialEq, Eq, Structural)]
pub enum SchedulerStep {
    /// Dynamic DNS is off: sleep `secs` seconds, then look at the configuration again.
    Idle { secs: u64 },
    /// Sync now, then sleep `secs` seconds.
    SyncThenSleep { secs: u64 },
    /// Sleep `nanos` nanoseconds, then sync.
    SleepThenSync { nanos: u64 },
}

/// The configured interval, but never less than ten seconds.
pub open spec fn effective_interval(interval_secs: u64) -> u64 {
    if interval_secs >= 10 {
        interval_secs
    } else {
        10
    }
}

/// The sleep after an interval sync is the configured interval when it is
/// at least ten seconds, however long, and ten seconds otherwise: never less
/// than ten, never less than the configured interval, never cut short.
pub proof fn lemma_interval_sleep(interval_secs: u64)
    ensures
        effective_interval(interval_secs) >= 10,
        effective_interval(interval_secs) >= interval_secs,
        interval_secs >= 10 ==> effective_interval(interval_secs) == interval_secs,
        interval_secs < 10 ==> effective_interval(interval_secs) == 10,
{
}

/// The next round of the scheduler under `cfg`.
pub fn next_step(cfg: &AppConfig) -> (r: SchedulerStep)
    ensures
        !cfg.ddns.enabled ==> r == (SchedulerStep::Idle { secs: 30 }),
        cfg.ddns.enabled && cfg.scheduler.mode == SchedulerMode::Interval ==> r == (
        SchedulerStep::SyncThenSleep { secs: effective_interval(cfg.scheduler.interval_secs) }),
        cfg.ddns.enabled && cfg.scheduler.mode == SchedulerMode::UnixEpoch ==> (r matches SchedulerStep::SleepThenSync { nanos }
            && 0 < nanos <= day_nanos() && exists|ns: int, nf: int|
            0 <= ns < 86_400 && 0 <= nf < second_nanos() && nanos == wait_nanos(
                daily_target(parsed_time_of_day(cfg.scheduler.unix_time_utc@, daily_format())).0 as int,
                daily_target(parsed_time_of_day(cfg.scheduler.unix_time_utc@, daily_format())).1 as int,
                ns,
                nf,
            )),
{
    if !cfg.ddns.enabled {
        return SchedulerStep::Idle { secs: 30 };
    }
    match cfg.scheduler.mode {
        SchedulerMode::Interval => {
            let secs = if cfg.scheduler.interval_secs >= 10 {
                cfg.scheduler.interval_secs
            } else {
                10
            };
            SchedulerStep::SyncThenSleep { secs }
        },
        SchedulerMode::UnixEpoch => {
            SchedulerStep::SleepThenSync { nanos: seconds_until(cfg.scheduler.unix_time_utc.as_str()) }
        },
    }
}

} // verus!
