//! The counters shared by every exchange of one protocol instance.
use vstd::prelude::*;
use iroh_metrics::Counter;

verus! {

/// iroh_metrics::Counter, an atomic counter, held opaque: other tasks may move
/// it at any time, so no value of it is stated here.
#[verifier::external_type_specification]
#[verifier::external_body]
pub struct ExCounter(Counter);

/// Relies on iroh_metrics::Counter::new: a fresh atomic counter.
pub assume_specification[ Counter::new ]() -> Counter;

/// Relies on iroh_metrics::Counter::inc: adds one atomically and returns the
/// previous value, which other tasks may have moved meanwhile.
pub assume_specification[ Counter::inc ](c: &Counter) -> u64;

/// The two counters of a protocol instance. Each only ever grows, by one per
/// exchange that completed on its side.
#[derive(Debug)]
pub struct Metrics {
    /// Count of exchanges this side completed as initiator.
    pub pings_sent: Counter,
    /// Count of exchanges this side completed as responder.
    pub pings_recv: Counter,
}

impl Metrics {
    /// Both counters at zero.
    pub fn new() -> (r: Metrics) {
        Metrics { pings_sent: Counter::new(), pings_recv: Counter::new() }
    }
}

} // verus!
