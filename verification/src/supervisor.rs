//! The supervisor of one subscription worker: its connection state and the
//! decision its event loop takes on every iteration.
//!
//! A feed is connected once at construction, when a subscription address
//! is supplied, and never reconnects: a failed or dropped connection
//! leaves the feed unavailable rather than crashing the process. A
//! running worker waits on either a cancellation signal or the next
//! stream event; the decision for each outcome is a pure function of the
//! supervisor state and the event, so cancellation is observed within one
//! iteration wherever it arrives.

use vstd::prelude::*;

verus! {

/// Connection state of one feed. `Disconnected` is terminal: no
/// subscription address was configured, or the one connection attempt
/// failed.
#[derive(Clone, Copy, PartialEq, Eq, Structural, Debug)]
pub enum FeedConnection {
    Disconnected,
    Connected,
}

/// What one wait of the worker's event loop came back with.
#[derive(Clone, Copy, PartialEq, Eq, Structural, Debug)]
pub enum WorkerEvent {
    /// The cancellation signal arrived.
    CancelReceived,
    /// A well-formed stream event arrived.
    StreamEvent,
    /// A malformed or undecodable stream event arrived.
    MalformedEvent,
}

/// What the worker does with one wait's outcome.
#[derive(Clone, Copy, PartialEq, Eq, Structural, Debug)]
pub enum WorkerAction {
    /// Leave the event loop; the worker ends.
    Exit,
    /// Feed the event into the matching aggregator.
    Apply,
    /// Log and go on; one bad message never ends the feed.
    Skip,
}

/// Supervisor of one subscription worker.
#[derive(Clone, Copy, PartialEq, Eq, Structural, Debug)]
pub struct SubscriptionSupervisor {
    /// Connection state of the feed.
    pub connection: FeedConnection,
    /// Whether `stop` was called.
    pub stop_requested: bool,
}

/// The decision one event-loop iteration takes: once a stop was
/// requested, every outcome leads out of the loop; before that, a
/// cancellation signal leads out, a well-formed event is applied, and a
/// malformed one is skipped.
pub open spec fn spec_worker_step(s: SubscriptionSupervisor, event: WorkerEvent) -> WorkerAction {
    if s.stop_requested {
        WorkerAction::Exit
    } else {
        match event {
            WorkerEvent::CancelReceived => WorkerAction::Exit,
            WorkerEvent::StreamEvent => WorkerAction::Apply,
            WorkerEvent::MalformedEvent => WorkerAction::Skip,
        }
    }
}

impl SubscriptionSupervisor {
    /// A supervisor for one feed: connected exactly when a subscription
    /// address was supplied, and that once, at construction.
    pub fn new(has_subscription_address: bool) -> (r: Self)
        ensures
            r.connection == if has_subscription_address {
                FeedConnection::Connected
            } else {
                FeedConnection::Disconnected
            },
            !r.stop_requested,
    {
        SubscriptionSupervisor {
            connection: if has_subscription_address {
                FeedConnection::Connected
            } else {
                FeedConnection::Disconnected
            },
            stop_requested: false,
        }
    }

    /// Requests a cooperative stop: from here on every event-loop
    /// iteration exits, whatever its wait came back with.
    pub fn stop(&mut self)
        ensures
            final(self).stop_requested,
            final(self).connection == old(self).connection,
            forall|event: WorkerEvent|
                spec_worker_step(*final(self), event) == WorkerAction::Exit,
    {
        self.stop_requested = true;
    }

    /// The decision of one event-loop iteration.
    pub fn worker_step(&self, event: WorkerEvent) -> (r: WorkerAction)
        ensures
            r == spec_worker_step(*self, event),
    {
        if self.stop_requested {
            WorkerAction::Exit
        } else {
            match event {
                WorkerEvent::CancelReceived => WorkerAction::Exit,
                WorkerEvent::StreamEvent => WorkerAction::Apply,
                WorkerEvent::MalformedEvent => WorkerAction::Skip,
            }
        }
    }
}

/// Once a stop was requested, no iteration ever applies another event:
/// the worker exits on its next wait, whatever arrives, so the stop is
/// observed within one event-wait cycle.
pub proof fn lemma_stop_halts_worker(s: SubscriptionSupervisor, event: WorkerEvent)
    requires
        s.stop_requested,
    ensures
        spec_worker_step(s, event) == WorkerAction::Exit,
        spec_worker_step(s, event) != WorkerAction::Apply,
{
}

/// A malformed stream event never ends the feed: while no stop was
/// requested, the worker skips it and waits again.
pub proof fn lemma_malformed_event_is_skipped(s: SubscriptionSupervisor)
    requires
        !s.stop_requested,
    ensures
        spec_worker_step(s, WorkerEvent::MalformedEvent) == WorkerAction::Skip,
{
}

} // verus!
