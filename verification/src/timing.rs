use vstd::prelude::*;

verus! {

#[verifier::external_type_specification]
#[verifier::external_body]
pub struct ExInstant(std::time::Instant);

/// Relies on std::time::Instant::now: a reading of the monotonic clock; of
/// its value nothing is assumed.
#[verifier::external_body]
fn monotonic_now() -> std::time::Instant {
    std::time::Instant::now()
}

/// Relies on Instant::elapsed: the time that passed since the reading was
/// taken; of its value nothing is assumed.
#[verifier::external_body]
fn elapsed_since(start: std::time::Instant) -> core::time::Duration {
    start.elapsed()
}

/// Relies on Duration::subsec_nanos: the fractional-second part of the
/// duration in nanoseconds, documented to lie below one billion.
#[verifier::external_body]
pub(crate) fn subsec_nanos(d: &core::time::Duration) -> (r: u32)
    ensures
        r < 1_000_000_000,
{
    d.subsec_nanos()
}

/// Run the computation exactly once and pair its result with the wall-clock
/// time that passed around the run, measured on the monotonic clock.
pub fn time_it<F, T>(f: F) -> (res: (T, core::time::Duration)) where F: FnOnce() -> T
    requires
        f.requires(()),
    ensures
        f.ensures((), res.0),
{
    let start = monotonic_now();
    let out = f();
    let elapsed = elapsed_since(start);
    (out, elapsed)
}

} // verus!
