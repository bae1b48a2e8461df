//! The linking orchestration core: a single-writer state machine that owns
//! at most one linking attempt at a time.
//!
//! The command loop around this core (the unverified shell) pulls one
//! command at a time from its inbox and drives the attempt: it begins the
//! attempt, hands the device name to the linking provider, feeds back the
//! outcome of the single-use provisioning slot, and finally joins the
//! attempt. Each step is a decision of this core, with the step's whole
//! effect on the shared state cell and on the two broadcast channels stated
//! in its contract.
//!
//! Per attempt, exactly one of two things happens: the provisioning URL is
//! delivered and the state moves to `Linking { url }` (with one
//! state-changed notification), or the slot is abandoned and exactly one
//! `LinkingCancelled` event is published — never both, never neither.

use vstd::prelude::*;

use crate::broadcast::{Broadcaster, Receiver};
use crate::cell::StateCell;
use crate::state::{AttemptOutcome, SignalCommand, SignalEvent, SignalState, SlotOutcome};

verus! {

/// The payload-free state-changed notification: subscribers re-read the
/// shared state cell on receipt rather than trusting an inline value, so a
/// coalesced or missed trigger can never leave them with a stale snapshot.
#[derive(Debug, Clone, Copy, PartialEq, Eq)]
pub struct Tick;

/// Ring capacity of the discrete-event channel.
pub const EVENT_CHANNEL_CAPACITY: usize = 64;

/// Ring capacity of the state-changed channel: one slot suffices, since a
/// trigger carries no payload and coalescing triggers loses nothing.
pub const STATE_CHANNEL_CAPACITY: usize = 1;

/// How many entries of a state log are `Linking` transitions.
pub open spec fn count_linking(log: Seq<SignalState>) -> nat
    decreases log.len(),
{
    if log.len() == 0 {
        0
    } else {
        count_linking(log.drop_last()) + if log.last() is Linking {
            1nat
        } else {
            0nat
        }
    }
}

/// Appending one entry raises the `Linking` count by one exactly when the
/// entry is a `Linking` transition.
pub proof fn lemma_count_linking_push(log: Seq<SignalState>, v: SignalState)
    ensures
        count_linking(log.push(v)) == count_linking(log) + if v is Linking {
            1nat
        } else {
            0nat
        },
{
    assert(log.push(v).drop_last() =~= log);
}

/// The orchestration core: the shared state cell, the two broadcast
/// channels, and the attempt ledger that pins the lifecycle of the single
/// in-flight attempt.
pub struct SignalCore {
    /// The single shared cell holding the current lifecycle state.
    pub cell: StateCell,
    /// The state-changed channel; a trigger is published on every mutation
    /// of the cell, and on nothing else.
    pub state_tx: Broadcaster<Tick>,
    /// The discrete-event channel.
    pub event_tx: Broadcaster<SignalEvent>,
    /// How many attempts were ever begun.
    pub attempts_started: u64,
    /// How many attempts' provisioning slots were resolved (fulfilled or
    /// abandoned).
    pub attempts_resolved: u64,
    /// How many attempts were joined to completion.
    pub attempts_finished: u64,
}

impl SignalCore {
    /// No attempt is in flight: the next command may begin one.
    pub open spec fn idle(&self) -> bool {
        self.attempts_started == self.attempts_finished
    }

    /// An attempt is in flight and its provisioning slot is still open.
    pub open spec fn awaiting_slot(&self) -> bool {
        self.attempts_resolved < self.attempts_started
    }

    /// An attempt is in flight, its slot is resolved, and only the final
    /// join is outstanding.
    pub open spec fn awaiting_join(&self) -> bool {
        self.attempts_resolved == self.attempts_started
            && self.attempts_finished < self.attempts_started
    }

    /// The core's invariant.
    ///
    /// The ledger keeps attempts strictly sequential: slots resolve only
    /// for begun attempts, joins only after resolution, and at most one
    /// attempt is ever past `begin` and short of `join`. The cell and the
    /// state channel move in lockstep — one trigger per mutation — and
    /// every resolved slot produced exactly one of a `Linking` transition
    /// or a cancellation event.
    pub open spec fn wf(&self) -> bool {
        &&& self.cell.wf()
        &&& self.state_tx.wf()
        &&& self.event_tx.wf()
        &&& self.state_tx.log@.len() == self.cell.log@.len()
        &&& self.attempts_finished <= self.attempts_resolved <= self.attempts_started
            <= self.attempts_finished + 1
        &&& count_linking(self.cell.log@) + self.event_tx.log@.len()
            == self.attempts_resolved
    }

    /// A fresh core: state `Unlinked`, nothing published, no attempts.
    pub fn new() -> (c: SignalCore)
        ensures
            c.wf(),
            c.idle(),
            c.cell.value is Unlinked,
            c.cell.version == 0,
            c.cell.log@ == Seq::<SignalState>::empty(),
            c.state_tx.log@ == Seq::<Tick>::empty(),
            c.event_tx.log@ == Seq::<SignalEvent>::empty(),
            c.state_tx.cap == STATE_CHANNEL_CAPACITY,
            c.event_tx.cap == EVENT_CHANNEL_CAPACITY,
            c.attempts_started == 0,
            c.attempts_resolved == 0,
            c.attempts_finished == 0,
    {
        SignalCore {
            cell: StateCell::new(),
            state_tx: Broadcaster::new(STATE_CHANNEL_CAPACITY),
            event_tx: Broadcaster::new(EVENT_CHANNEL_CAPACITY),
            attempts_started: 0,
            attempts_resolved: 0,
            attempts_finished: 0,
        }
    }

    /// Store a new lifecycle state and publish exactly one state-changed
    /// trigger for it. The mutation and its notification are inseparable:
    /// this is the only way the cell is ever written.
    fn set_state(&mut self, value: SignalState)
        requires
            old(self).cell.wf(),
            old(self).state_tx.wf(),
            old(self).cell.version < u64::MAX,
            old(self).state_tx.head < u64::MAX,
        ensures
            final(self).cell.wf(),
            final(self).state_tx.wf(),
            final(self).cell.value == value,
            final(self).cell.version == old(self).cell.version + 1,
            final(self).cell.log@ == old(self).cell.log@.push(value),
            final(self).state_tx.log@ == old(self).state_tx.log@.push(Tick),
            final(self).state_tx.cap == old(self).state_tx.cap,
            final(self).event_tx == old(self).event_tx,
            final(self).attempts_started == old(self).attempts_started,
            final(self).attempts_resolved == old(self).attempts_resolved,
            final(self).attempts_finished == old(self).attempts_finished,
    {
        self.cell.set(value);
        self.state_tx.publish(Tick);
    }

    /// Begin the attempt for one `Link` command; returns the device name
    /// to hand to the linking provider. Only an idle core may begin an
    /// attempt, so attempts never overlap; a command that arrives while
    /// one is in flight simply waits in the caller's inbox.
    pub fn begin_attempt(&mut self, cmd: SignalCommand) -> (device_name: String)
        requires
            old(self).wf(),
            old(self).idle(),
            old(self).attempts_started < u64::MAX,
            cmd->device_name@.len() > 0,
        ensures
            final(self).wf(),
            final(self).awaiting_slot(),
            final(self).attempts_started == old(self).attempts_started + 1,
            final(self).attempts_resolved == old(self).attempts_resolved,
            final(self).attempts_finished == old(self).attempts_finished,
            final(self).cell == old(self).cell,
            final(self).state_tx == old(self).state_tx,
            final(self).event_tx == old(self).event_tx,
            device_name == cmd->device_name,
    {
        self.attempts_started = self.attempts_started + 1;
        match cmd {
            SignalCommand::Link { device_name } => device_name,
        }
    }

    /// Resolve the in-flight attempt's provisioning slot. Exactly one of
    /// two effects happens, and nothing else:
    ///
    /// - the slot delivered a URL: the state moves to `Linking { url }`,
    ///   with one state-changed trigger and no event;
    /// - the slot was abandoned: exactly one `LinkingCancelled` event is
    ///   published, and the state keeps whatever value it had.
    pub fn on_slot_outcome(&mut self, outcome: SlotOutcome)
        requires
            old(self).wf(),
            old(self).awaiting_slot(),
            old(self).cell.version < u64::MAX,
            old(self).event_tx.head < u64::MAX,
        ensures
            final(self).wf(),
            final(self).awaiting_join(),
            final(self).attempts_started == old(self).attempts_started,
            final(self).attempts_resolved == old(self).attempts_resolved + 1,
            final(self).attempts_finished == old(self).attempts_finished,
            match outcome {
                SlotOutcome::Delivered { url } => {
                    &&& final(self).cell.value == (SignalState::Linking { url })
                    &&& final(self).cell.version == old(self).cell.version + 1
                    &&& final(self).cell.log@ == old(self).cell.log@.push(
                        SignalState::Linking { url },
                    )
                    &&& final(self).state_tx.log@ == old(self).state_tx.log@.push(Tick)
                    &&& final(self).state_tx.cap == old(self).state_tx.cap
                    &&& final(self).event_tx == old(self).event_tx
                },
                SlotOutcome::Abandoned => {
                    &&& final(self).cell == old(self).cell
                    &&& final(self).state_tx == old(self).state_tx
                    &&& final(self).event_tx.log@ == old(self).event_tx.log@.push(
                        SignalEvent::LinkingCancelled,
                    )
                    &&& final(self).event_tx.cap == old(self).event_tx.cap
                    &&& final(self).event_tx.head == old(self).event_tx.head + 1
                },
            },
    {
        self.attempts_resolved = self.attempts_resolved + 1;
        match outcome {
            SlotOutcome::Delivered { url } => {
                let ghost log_before = self.cell.log@;
                self.set_state(SignalState::Linking { url });
                proof {
                    lemma_count_linking_push(log_before, self.cell.value);
                }
            },
            SlotOutcome::Abandoned => {
                self.event_tx.publish(SignalEvent::LinkingCancelled);
            },
        }
    }

    /// Join the in-flight attempt after its slot has resolved. The join
    /// forces no state transition of its own — a failed attempt leaves the
    /// public state as whatever the slot's resolution set — and only tells
    /// the caller whether a session handle exists to hand to its
    /// credential store.
    pub fn finish_attempt(&mut self, outcome: AttemptOutcome) -> (persist: bool)
        requires
            old(self).wf(),
            old(self).awaiting_join(),
        ensures
            final(self).wf(),
            final(self).idle(),
            final(self).attempts_started == old(self).attempts_started,
            final(self).attempts_resolved == old(self).attempts_resolved,
            final(self).attempts_finished == old(self).attempts_finished + 1,
            final(self).cell == old(self).cell,
            final(self).state_tx == old(self).state_tx,
            final(self).event_tx == old(self).event_tx,
            persist == (outcome is Succeeded),
    {
        self.attempts_finished = self.attempts_finished + 1;
        match outcome {
            AttemptOutcome::Succeeded => true,
            AttemptOutcome::Failed => false,
        }
    }

    /// The explicit `Connected` transition, made once the caller's
    /// credential store has confirmed the persisted session. It may only
    /// happen between attempts, and publishes its one state-changed
    /// trigger like every other mutation.
    pub fn confirm_connected(&mut self)
        requires
            old(self).wf(),
            old(self).idle(),
            old(self).cell.version < u64::MAX,
        ensures
            final(self).wf(),
            final(self).idle(),
            final(self).cell.value is Connected,
            final(self).cell.version == old(self).cell.version + 1,
            final(self).cell.log@ == old(self).cell.log@.push(SignalState::Connected),
            final(self).state_tx.log@ == old(self).state_tx.log@.push(Tick),
            final(self).event_tx == old(self).event_tx,
            final(self).attempts_started == old(self).attempts_started,
            final(self).attempts_resolved == old(self).attempts_resolved,
            final(self).attempts_finished == old(self).attempts_finished,
    {
        let ghost log_before = self.cell.log@;
        self.set_state(SignalState::Connected);
        proof {
            lemma_count_linking_push(log_before, SignalState::Connected);
        }
    }

    /// Run one command's whole attempt, given how its slot and the attempt
    /// itself resolved: begin, resolve the slot, join. The core is idle
    /// again afterwards, so attempts driven this way are strictly
    /// sequential, in the inbox's order.
    pub fn handle_command(
        &mut self,
        cmd: SignalCommand,
        slot: SlotOutcome,
        attempt: AttemptOutcome,
    ) -> (persist: bool)
        requires
            old(self).wf(),
            old(self).idle(),
            old(self).attempts_started < u64::MAX,
            old(self).cell.version < u64::MAX,
            old(self).event_tx.head < u64::MAX,
            cmd->device_name@.len() > 0,
        ensures
            final(self).wf(),
            final(self).idle(),
            final(self).attempts_started == old(self).attempts_started + 1,
            final(self).attempts_resolved == old(self).attempts_resolved + 1,
            final(self).attempts_finished == old(self).attempts_finished + 1,
            persist == (attempt is Succeeded),
            match slot {
                SlotOutcome::Delivered { url } => {
                    &&& final(self).cell.value == (SignalState::Linking { url })
                    &&& final(self).cell.version == old(self).cell.version + 1
                    &&& final(self).cell.log@ == old(self).cell.log@.push(
                        SignalState::Linking { url },
                    )
                    &&& final(self).state_tx.log@ == old(self).state_tx.log@.push(Tick)
                    &&& final(self).event_tx == old(self).event_tx
                },
                SlotOutcome::Abandoned => {
                    &&& final(self).cell == old(self).cell
                    &&& final(self).state_tx == old(self).state_tx
                    &&& final(self).event_tx.log@ == old(self).event_tx.log@.push(
                        SignalEvent::LinkingCancelled,
                    )
                },
            },
    {
        let _device_name = self.begin_attempt(cmd);
        self.on_slot_outcome(slot);
        self.finish_attempt(attempt)
    }

    /// Read the current state as a copy.
    pub fn read_state(&self) -> (r: SignalState)
        ensures
            r == self.cell.value,
    {
        self.cell.read()
    }

    /// Read the current state's version: how many mutations precede it.
    pub fn state_version(&self) -> (v: u64)
        ensures
            v == self.cell.version,
    {
        self.cell.current_version()
    }

    /// Register one observer: a receiver on the event channel and one on
    /// the state-changed channel, both starting at the present head — an
    /// observer never sees anything emitted before it subscribed.
    pub fn subscribe(&self) -> (subs: (Receiver, Receiver))
        ensures
            subs.0.cursor == self.event_tx.head,
            subs.1.cursor == self.state_tx.head,
    {
        (self.event_tx.subscribe(), self.state_tx.subscribe())
    }

    /// Answer an observer's pending state-changed triggers: drain its
    /// trigger receiver and, if anything was pending, re-read the shared
    /// state. Triggers carry no payload, so however many of them were
    /// coalesced or lost to lag, the one re-read yields the current value —
    /// never one older than the mutation behind any drained trigger.
    pub fn poll_state(&self, ticks: &mut Receiver) -> (r: Option<SignalState>)
        requires
            self.state_tx.wf(),
            old(ticks).cursor <= self.state_tx.head,
        ensures
            final(ticks).cursor == self.state_tx.head,
            (r is Some) == (old(ticks).cursor < self.state_tx.head),
            r matches Some(v) ==> v == self.cell.value,
    {
        let pending = self.state_tx.drain(ticks);
        if pending.len() > 0 {
            Some(self.cell.read())
        } else {
            None
        }
    }

    /// At most one attempt is active at any instant: however many commands
    /// were handled, the attempts begun never outrun the attempts joined
    /// by more than one.
    pub proof fn lemma_single_attempt_in_flight(&self)
        requires
            self.wf(),
        ensures
            self.attempts_started <= self.attempts_finished + 1,
            self.attempts_finished <= self.attempts_resolved <= self.attempts_started,
    {
    }

    /// Every resolved attempt produced exactly one of a `Linking` state
    /// transition or a cancellation event: the `Linking` transitions and
    /// the published events together count the resolved attempts, one
    /// outcome per attempt — never both, never neither.
    pub proof fn lemma_one_outcome_per_attempt(&self)
        requires
            self.wf(),
        ensures
            count_linking(self.cell.log@) + self.event_tx.log@.len()
                == self.attempts_resolved,
    {
    }

    /// Read-after-notify freshness: once the `i`-th state-changed trigger
    /// exists, the cell's version is past `i`, so a read made after that
    /// trigger was received returns a value no older than the mutation
    /// that published it.
    pub proof fn lemma_read_after_notify_fresh(&self, i: int)
        requires
            self.wf(),
            0 <= i < self.state_tx.log@.len(),
        ensures
            self.cell.version > i,
            i < self.cell.log@.len(),
    {
    }
}

} // verus!
