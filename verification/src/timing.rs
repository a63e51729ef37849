//! The two middleware hooks: capture a monotonic start time when a
//! request enters the pipeline, and render its timing log line when the
//! response is ready.

use vstd::prelude::*;
use crate::logline::{log_line, seg_views, format_timing_line};

verus! {

#[verifier::external_type_specification]
#[verifier::external_body]
pub struct ExInstant(std::time::Instant);

/// Relies on std::time::Instant::now: a reading of the monotonic clock.
#[verifier::external_body]
fn instant_now() -> std::time::Instant {
    std::time::Instant::now()
}

/// Relies on std::time::Instant::elapsed: the time since `start` on the
/// monotonic clock, which never runs backward.
#[verifier::external_body]
fn instant_elapsed(start: &std::time::Instant) -> std::time::Duration {
    start.elapsed()
}

/// Relies on std::time::Duration::as_secs: the whole-second part of the
/// duration.
#[verifier::external_body]
fn duration_secs(d: &std::time::Duration) -> u64 {
    d.as_secs()
}

/// Relies on std::time::Duration::subsec_nanos: the fractional part in
/// nanoseconds, documented to be below one billion.
#[verifier::external_body]
fn duration_subsec_nanos(d: &std::time::Duration) -> (r: u32)
    ensures
        r < 1_000_000_000,
{
    d.subsec_nanos()
}

/// Nanosecond count of a duration given as whole seconds and a
/// sub-second nanosecond part, capped at the largest value a u64 holds.
pub open spec fn total_nanos(secs: nat, subsec: nat) -> nat {
    if secs * 1_000_000_000 + subsec <= u64::MAX as nat {
        secs * 1_000_000_000 + subsec
    } else {
        u64::MAX as nat
    }
}

/// Combines whole seconds and sub-second nanoseconds into a single
/// nanosecond count, saturating where the count would not fit in a u64.
pub fn elapsed_nanos(secs: u64, subsec_nanos: u32) -> (r: u64)
    requires
        subsec_nanos < 1_000_000_000,
    ensures
        r as nat == total_nanos(secs as nat, subsec_nanos as nat),
{
    match secs.checked_mul(1_000_000_000) {
        Some(base) => match base.checked_add(subsec_nanos as u64) {
            Some(total) => total,
            None => u64::MAX,
        },
        None => u64::MAX,
    }
}

/// The single per-request value the middleware keeps: the monotonic
/// clock reading taken when the request entered the pipeline. Each
/// request carries its own context; nothing is shared across requests.
pub struct TimingContext {
    start: std::time::Instant,
}

/// The timing middleware. It is stateless: `before` captures a start
/// time into a fresh per-request context, and `after` renders that
/// request's timing log line.
pub struct ResponseTime;

impl ResponseTime {
    /// Records the monotonic time at request entry. Always succeeds;
    /// its only effect is the returned per-request context.
    pub fn before(&self) -> TimingContext {
        TimingContext { start: instant_now() }
    }

    /// Computes the time elapsed since `ctx` was recorded and renders
    /// the request's log line. Whatever the clock read, the line is the
    /// exact rendering of the method, the path, and some elapsed
    /// nanosecond count.
    pub fn after(&self, ctx: &TimingContext, method: &str, segments: &Vec<String>) -> (line:
        String)
        ensures
            exists|ns: nat|
                ns <= u64::MAX && line@ == log_line(method@, seg_views(segments@), ns),
    {
        let d = instant_elapsed(&ctx.start);
        let secs = duration_secs(&d);
        let subsec = duration_subsec_nanos(&d);
        let ns = elapsed_nanos(secs, subsec);
        let line = format_timing_line(method, segments, ns);
        proof {
            assert(line@ == log_line(method@, seg_views(segments@), ns as nat));
        }
        line
    }
}

} // verus!
