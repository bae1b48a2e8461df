//! The shared state cell: the single owner of the current [`SignalState`],
//! mutated only by the command loop and read by any number of observers.
//!
//! A read hands back a copy, so observers never hold a reference into the
//! cell. The cell keeps a version counter and the ghost log of every value
//! ever stored, so that freshness of reads can be stated exactly: after the
//! `n`-th mutation the version is `n`, and the current value is the last
//! entry of the log.

use vstd::prelude::*;

use crate::state::SignalState;

verus! {

/// The single shared cell holding the current lifecycle state.
pub struct StateCell {
    /// The current state.
    pub value: SignalState,
    /// How many mutations the cell has seen.
    pub version: u64,
    /// The log of every value ever stored, oldest first.
    pub log: Ghost<Seq<SignalState>>,
}

impl StateCell {
    /// The cell is well-formed: the version counts the logged mutations and
    /// the current value is the initial `Unlinked` or the last mutation.
    pub open spec fn wf(&self) -> bool {
        &&& self.version as nat == self.log@.len()
        &&& if self.log@.len() == 0 {
            self.value is Unlinked
        } else {
            self.value == self.log@.last()
        }
    }

    /// A fresh cell: state `Unlinked`, no mutations yet.
    pub fn new() -> (c: StateCell)
        ensures
            c.wf(),
            c.value is Unlinked,
            c.version == 0,
            c.log@ == Seq::<SignalState>::empty(),
    {
        StateCell { value: SignalState::Unlinked, version: 0, log: Ghost(Seq::empty()) }
    }

    /// Store a new value: the version advances by one and the value is
    /// appended to the log.
    pub fn set(&mut self, v: SignalState)
        requires
            old(self).wf(),
            old(self).version < u64::MAX,
        ensures
            final(self).wf(),
            final(self).value == v,
            final(self).version == old(self).version + 1,
            final(self).log@ == old(self).log@.push(v),
    {
        self.version = self.version + 1;
        proof {
            self.log@ = self.log@.push(v);
        }
        self.value = v;
    }

    /// Read the current value as a copy; the cell is untouched.
    pub fn read(&self) -> (r: SignalState)
        ensures
            r == self.value,
    {
        match &self.value {
            SignalState::Unlinked => SignalState::Unlinked,
            SignalState::Linking { url } => SignalState::Linking { url: url.clone() },
            SignalState::Registering => SignalState::Registering,
            SignalState::Connected => SignalState::Connected,
        }
    }

    /// Read the current version; a value read together with this version is
    /// the `version`-th mutation's result (or the initial state at zero).
    pub fn current_version(&self) -> (v: u64)
        ensures
            v == self.version,
    {
        self.version
    }
}

} // verus!
