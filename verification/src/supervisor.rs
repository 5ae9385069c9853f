//! The tick-driven connection lifecycle state machine.
//!
//! A tick is one round of the supervisor loop: while disconnected it attempts
//! to establish a session, while connected it performs one liveness check.
//! The outside work of a tick — discovery, authentication, the liveness read —
//! happens outside the library; its outcome is handed in as a [`TickOutcome`]
//! and [`Data::tick`] performs the resulting state transition and decides
//! which connectivity notification, if any, is due.

use vstd::prelude::*;

use crate::state::Data;

verus! {

/// The outcome of the outside work of one supervisor tick.
///
/// Which variants can occur depends on the state the tick started in: a
/// disconnected tick attempts a connection and ends in `ConnectSucceeded`
/// (carrying the fresh session and push-channel handles) or `ConnectFailed`;
/// a connected tick performs a liveness check and ends in `LivenessOk` or
/// `LivenessFailed`.
pub enum TickOutcome<S, P> {
    ConnectSucceeded(S, P),
    ConnectFailed,
    LivenessOk,
    LivenessFailed,
}

impl<S, P> TickOutcome<S, P> {
    /// Whether the tick's probe succeeded.
    pub open spec fn succeeded(self) -> bool {
        self is ConnectSucceeded || self is LivenessOk
    }
}

/// The state a record is in after one tick: the transition rule of the
/// supervisor's state machine, written over the whole record so that the
/// handles and the flag are seen to move together.
///
/// An outcome that cannot arise from the record's state (a connect outcome
/// while connected, a liveness outcome while disconnected) changes nothing.
pub open spec fn spec_tick<S, P>(d: Data<S, P>, outcome: TickOutcome<S, P>) -> Data<S, P> {
    match outcome {
        TickOutcome::ConnectSucceeded(session, channel) => if d.connected {
            d
        } else {
            Data { lcu_client: Some(session), ws_client: Some(channel), connected: true }
        },
        TickOutcome::ConnectFailed => d,
        TickOutcome::LivenessOk => d,
        TickOutcome::LivenessFailed => if d.connected {
            Data { lcu_client: None, ws_client: None, connected: false }
        } else {
            d
        },
    }
}

/// The connectivity notification a tick emits: `Some(new state)` exactly when
/// the tick changes the connection state, `None` on every steady-state tick.
pub open spec fn spec_tick_event<S, P>(d: Data<S, P>, outcome: TickOutcome<S, P>) -> Option<
    bool,
> {
    if spec_tick(d, outcome).connected == d.connected {
        None
    } else {
        Some(spec_tick(d, outcome).connected)
    }
}

impl<S, P> Data<S, P> {
    /// Apply one supervisor tick to the record.
    ///
    /// The caller performs the tick's outside work first — a connect attempt
    /// while disconnected, a liveness check while connected — and hands in the
    /// outcome; the call then installs or discards the handles and the flag
    /// together and returns the connectivity notification that is due:
    /// `Some(true)` exactly on `Disconnected -> Connected`, `Some(false)`
    /// exactly on `Connected -> Disconnected`, `None` otherwise.
    ///
    /// The notification is handed back only once the new record is in place,
    /// so an observer that acts on `Some(true)` finds the session handle
    /// present, and one that acts on `Some(false)` finds both handles gone.
    pub fn tick(&mut self, outcome: TickOutcome<S, P>) -> (event: Option<bool>)
        requires
            old(self).wf(),
            old(self).connected ==> (outcome is LivenessOk || outcome is LivenessFailed),
            !old(self).connected ==> (outcome is ConnectSucceeded || outcome is ConnectFailed),
        ensures
            final(self).wf(),
            *final(self) == spec_tick(*old(self), outcome),
            event == spec_tick_event(*old(self), outcome),
            final(self).connected == outcome.succeeded(),
            event == Some(true) ==> final(self).lcu_client is Some && final(self).ws_client
                is Some,
            event == Some(false) ==> final(self).lcu_client is None && final(self).ws_client
                is None,
            event is Some <==> final(self).connected != old(self).connected,
    {
        match outcome {
            TickOutcome::ConnectSucceeded(session, channel) => {
                self.lcu_client = Some(session);
                self.ws_client = Some(channel);
                self.connected = true;
                Some(true)
            },
            TickOutcome::ConnectFailed => None,
            TickOutcome::LivenessOk => None,
            TickOutcome::LivenessFailed => {
                self.lcu_client = None;
                self.ws_client = None;
                self.connected = false;
                Some(false)
            },
        }
    }
}

/// The record after a whole sequence of ticks, applied first to last.
pub open spec fn spec_run<S, P>(d: Data<S, P>, outcomes: Seq<TickOutcome<S, P>>) -> Data<S, P>
    decreases outcomes.len(),
{
    if outcomes.len() == 0 {
        d
    } else {
        spec_tick(spec_run(d, outcomes.drop_last()), outcomes.last())
    }
}

/// How many ticks of a sequence emit the notification `Some(which)`.
pub open spec fn spec_event_count<S, P>(
    d: Data<S, P>,
    outcomes: Seq<TickOutcome<S, P>>,
    which: bool,
) -> nat
    decreases outcomes.len(),
{
    if outcomes.len() == 0 {
        0
    } else {
        spec_event_count(d, outcomes.drop_last(), which) + if spec_tick_event(
            spec_run(d, outcomes.drop_last()),
            outcomes.last(),
        ) == Some(which) {
            1nat
        } else {
            0nat
        }
    }
}

/// How many ticks of a sequence change the connection state to `to`.
pub open spec fn spec_transition_count<S, P>(
    d: Data<S, P>,
    outcomes: Seq<TickOutcome<S, P>>,
    to: bool,
) -> nat
    decreases outcomes.len(),
{
    if outcomes.len() == 0 {
        0
    } else {
        spec_transition_count(d, outcomes.drop_last(), to) + if spec_run(
            d,
            outcomes.drop_last(),
        ).connected != to && spec_run(d, outcomes).connected == to {
            1nat
        } else {
            0nat
        }
    }
}

/// Law: over every sequence of ticks, a record that satisfies the invariant
/// keeps it — `Connected` always has both handles present, `Disconnected`
/// always has both absent, and no mixed state ever arises.
pub proof fn lemma_run_preserves_wf<S, P>(d: Data<S, P>, outcomes: Seq<TickOutcome<S, P>>)
    requires
        d.wf(),
    ensures
        spec_run(d, outcomes).wf(),
    decreases outcomes.len(),
{
    if outcomes.len() > 0 {
        lemma_run_preserves_wf(d, outcomes.drop_last());
    }
}

/// Law: over every sequence of ticks, exactly one `Some(true)` notification
/// is emitted per `Disconnected -> Connected` transition and exactly one
/// `Some(false)` per `Connected -> Disconnected` transition — no duplicate
/// and no missing notification.
pub proof fn lemma_one_event_per_transition<S, P>(
    d: Data<S, P>,
    outcomes: Seq<TickOutcome<S, P>>,
    which: bool,
)
    ensures
        spec_event_count(d, outcomes, which) == spec_transition_count(d, outcomes, which),
    decreases outcomes.len(),
{
    if outcomes.len() > 0 {
        lemma_one_event_per_transition(d, outcomes.drop_last(), which);
    }
}

} // verus!
