use vstd::prelude::*;
use crate::error::PollError;

verus! {

/// The outcome of a poll, given what the vendor driver's read returned.
pub open spec fn poll_result<T>(sample: Result<T, PollError>) -> Result<(), PollError> {
    match sample {
        Ok(_) => Ok(()),
        Err(e) => Err(e),
    }
}

/// The uniform contract of a sensor driver adapter: a constant identity and a
/// fixed poll period. Booting and polling take the vendor driver's outcome,
/// whose shape differs per adapter, and are methods of each adapter type.
pub trait Sensor: Sized {
    /// The adapter's identity, as used in logs and metric labels.
    spec fn spec_name() -> Seq<char>;

    /// The adapter's poll period in milliseconds.
    spec fn spec_period_ms() -> u64;

    fn name(&self) -> (r: &'static str)
        ensures
            r@ == Self::spec_name(),
    ;

    fn poll_period(&self) -> (r: u64)
        ensures
            r == Self::spec_period_ms(),
            r > 0,
    ;
}

} // verus!
