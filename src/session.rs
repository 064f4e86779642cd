//! The acquisition session: when to start, stop and poll the acquisition
//! source, and what each outcome does to the running state and the history.
//!
//! The source itself is driven by the caller: a decision here names the
//! action to perform, and the caller hands back what the source answered.
use crate::store::SampleStore;
use vstd::prelude::*;

verus! {

#[derive(Clone, Copy, Debug, PartialEq, Eq, Structural)]
pub enum RunState {
    Idle,
    Running,
}

/// What the caller is to do with the acquisition source.
#[derive(Clone, Copy, Debug, PartialEq, Eq, Structural)]
pub enum Action {
    Nothing,
    StartSource,
    StopSource,
}

pub struct Session<T> {
    pub state: RunState,
    pub store: SampleStore<T>,
}

/// The action for the running-state toggle.
pub open spec fn toggle_action(state: RunState) -> Action {
    match state {
        RunState::Idle => Action::StartSource,
        RunState::Running => Action::StopSource,
    }
}

/// The action for a request to stop: nothing when already idle.
pub open spec fn stop_action(state: RunState) -> Action {
    match state {
        RunState::Idle => Action::Nothing,
        RunState::Running => Action::StopSource,
    }
}

/// The state once the source has answered `action` with success (`ok`) or
/// a failure. A failure leaves the state as it was.
pub open spec fn state_after(state: RunState, action: Action, ok: bool) -> RunState {
    if !ok {
        state
    } else {
        match action {
            Action::Nothing => state,
            Action::StartSource => RunState::Running,
            Action::StopSource => RunState::Idle,
        }
    }
}

impl<T> Session<T> {
    /// A stopped session over an empty history of `count` channels.
    pub fn new(count: usize) -> (r: Session<T>)
        ensures
            r.state == RunState::Idle,
            r.store.contents().len() == count,
            forall|i: int| 0 <= i < count ==> r.store.contents()[i].len() == 0,
    {
        Session { state: RunState::Idle, store: SampleStore::new(count) }
    }

    pub fn is_running(&self) -> (r: bool)
        ensures
            r == (self.state == RunState::Running),
    {
        self.state == RunState::Running
    }

    pub fn on_toggle(&self) -> (r: Action)
        ensures
            r == toggle_action(self.state),
    {
        match self.state {
            RunState::Idle => Action::StartSource,
            RunState::Running => Action::StopSource,
        }
    }

    pub fn on_stop(&self) -> (r: Action)
        ensures
            r == stop_action(self.state),
    {
        match self.state {
            RunState::Idle => Action::Nothing,
            RunState::Running => Action::StopSource,
        }
    }

    /// Records how the source answered `action` (`Ok` where the action was
    /// `Nothing`), and passes the answer on. The history is kept either way.
    pub fn on_outcome<E>(&mut self, action: Action, outcome: Result<(), E>) -> (r: Result<(), E>)
        ensures
            final(self).state == state_after(old(self).state, action, outcome is Ok),
            final(self).store == old(self).store,
            r == outcome,
    {
        if outcome.is_ok() {
            match action {
                Action::Nothing => {},
                Action::StartSource => {
                    self.state = RunState::Running;
                },
                Action::StopSource => {
                    self.state = RunState::Idle;
                },
            }
        }
        outcome
    }

    /// Records one poll of the source. While running, new chunks are
    /// appended to the history, and a failed read stops the session and is
    /// passed on; while idle nothing is polled and nothing changes.
    pub fn on_read<E>(&mut self, result: Result<Vec<Vec<T>>, E>) -> (r: Result<(), E>)
        requires
            result matches Ok(chunks) ==> chunks@.len() == old(self).store.contents().len(),
        ensures
            old(self).state == RunState::Idle ==> final(self).state == RunState::Idle && final(self).store.contents()
                == old(self).store.contents() && r is Ok,
            old(self).state == RunState::Running ==> match result {
                Ok(chunks) => {
                    &&& final(self).state == RunState::Running
                    &&& r is Ok
                    &&& final(self).store.contents().len() == old(self).store.contents().len()
                    &&& forall|i: int|
                        0 <= i < old(self).store.contents().len() ==> final(self).store.contents()[i]
                            == old(self).store.contents()[i] + chunks@[i]@
                },
                Err(e) => {
                    &&& final(self).state == RunState::Idle
                    &&& final(self).store.contents() == old(self).store.contents()
                    &&& r == Err::<(), E>(e)
                },
            },
    {
        match self.state {
            RunState::Idle => Ok(()),
            RunState::Running => match result {
                Ok(chunks) => {
                    self.store.append(chunks);
                    Ok(())
                },
                Err(e) => {
                    self.state = RunState::Idle;
                    Err(e)
                },
            },
        }
    }
}

/// A stop requested while idle asks nothing of the source and, answered
/// with success, leaves the session idle.
pub proof fn lemma_stop_when_idle_is_noop()
    ensures
        stop_action(RunState::Idle) == Action::Nothing,
        state_after(RunState::Idle, stop_action(RunState::Idle), true) == RunState::Idle,
{
}

} // verus!
