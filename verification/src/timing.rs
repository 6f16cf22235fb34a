//! Wall-clock timing of one unit of work, on the monotonic clock.

use std::time::{Duration, Instant};
use vstd::prelude::*;

verus! {

/// A point on the monotonic clock of the standard library. Opaque: it depends
/// on when it was taken.
#[verifier::external_type_specification]
#[verifier::external_body]
pub struct ExInstant(Instant);

/// Calls `Instant::now`. Nothing is claimed of the point returned.
#[verifier::external_body]
fn clock_now() -> Instant {
    Instant::now()
}

/// Calls `Instant::elapsed`, the time gone by since `start`. Nothing is
/// claimed of the span returned.
#[verifier::external_body]
fn elapsed_since(start: &Instant) -> Duration {
    start.elapsed()
}

/// Calls `Duration::as_millis`, the whole milliseconds of a span. Nothing is
/// claimed of the number.
#[verifier::external_body]
fn whole_millis(span: &Duration) -> u128 {
    span.as_millis()
}

/// A running measurement of one phase.
pub struct Stopwatch {
    started: Instant,
}

impl Stopwatch {
    /// Starts measuring now.
    pub fn start() -> Stopwatch {
        Stopwatch { started: clock_now() }
    }

    /// Whole milliseconds gone by since the measurement started.
    pub fn elapsed_ms(&self) -> u128 {
        let span = elapsed_since(&self.started);
        whole_millis(&span)
    }
}

/// Runs `f` to completion and returns the milliseconds it took. Whatever `f`
/// guarantees of a call holds afterwards.
pub fn time_ms<F: FnOnce()>(f: F) -> (millis: u128)
    requires
        f.requires(()),
    ensures
        f.ensures((), ()),
{
    let watch = Stopwatch::start();
    f();
    watch.elapsed_ms()
}

} // verus!
