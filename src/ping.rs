//! One protocol instance: the metrics that all of its exchanges share, and the
//! entry points through which each exchange's events are fed to its machine.
use vstd::prelude::*;
use std::sync::Arc;
use crate::initiator::{initiator_next, InitiatorAction, InitiatorEvent, InitiatorState};
use crate::metrics::Metrics;
use crate::responder::{responder_next, ResponderAction, ResponderEvent, ResponderState};

verus! {

/// Holds the metrics of one protocol instance, shared by every exchange it runs
/// as initiator or as responder, in any number of concurrent tasks; clones share
/// the same counters.
#[derive(Clone, Debug)]
pub struct Ping {
    metrics: Arc<Metrics>,
}

impl Ping {
    /// The counters this instance and its clones share.
    pub closed spec fn shared(&self) -> Arc<Metrics> {
        self.metrics
    }

    /// A fresh instance, its counters at zero.
    pub fn new() -> (r: Ping) {
        Ping { metrics: Arc::new(Metrics::new()) }
    }

    /// A handle to the live counters.
    pub fn metrics(&self) -> (r: &Arc<Metrics>)
        ensures
            *r == self.shared(),
    {
        &self.metrics
    }

    /// Feeds one event to an exchange this instance initiates: `session` moves
    /// to the next state and the action to perform is returned. When the
    /// action is `Complete`, `pings_sent` has been incremented by one; no other
    /// step touches a counter.
    pub fn ping_step(&self, session: &mut InitiatorState, event: &InitiatorEvent) -> (a: InitiatorAction)
        ensures
            (*final(session), a) == initiator_next(*old(session), *event),
    {
        let (next, action) = (*session).step(event);
        *session = next;
        if let InitiatorAction::Complete { .. } = action {
            self.metrics.pings_sent.inc();
        }
        action
    }

    /// Feeds one event to an exchange this instance answers: `session` moves to
    /// the next state and the action to perform is returned. When the action is
    /// `Complete`, which only the peer's close of the connection brings,
    /// `pings_recv` has been incremented by one; no other step touches a
    /// counter.
    pub fn accept_step(&self, session: &mut ResponderState, event: &ResponderEvent) -> (a: ResponderAction)
        ensures
            (*final(session), a) == responder_next(*old(session), *event),
    {
        let (next, action) = (*session).step(event);
        *session = next;
        if let ResponderAction::Complete = action {
            self.metrics.pings_recv.inc();
        }
        action
    }
}

impl Default for Ping {
    fn default() -> (r: Ping) {
        Ping::new()
    }
}

} // verus!
