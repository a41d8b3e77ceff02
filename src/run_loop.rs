//! The run loop: sweeps over the watched files, asks the change detector
//! about each, has the changed ones processed, and decides from each outcome
//! whether to go on, retry on the next sweep, or stop.
//!
//! Like the executor it is a state machine: `next_action` says what the
//! caller is to do (read a file's modification time, process a file, sleep,
//! stop) and the caller reports back through `on_stat`, `on_outcome` and
//! `on_slept`.
use vstd::prelude::*;

use crate::detector::{needs_processing, recorded, Timestamp, WatchState};
use crate::executor::Outcome;
use crate::mode::Mode;

verus! {

/// What the run loop asks its caller to do.
#[derive(Clone, Debug)]
pub enum Action {
    /// Read the modification time of the file at this index and pass it to
    /// `RunLoop::on_stat`.
    Check(usize),
    /// Run the pipeline over the file at this index and pass its outcome to
    /// `RunLoop::on_outcome`.
    Process(usize),
    /// Sleep for the poll interval, then call `RunLoop::on_slept`.
    Sleep,
    /// Stop: the single sweep of compile mode is over.
    Finish,
    /// Stop with this error.
    Abort(String),
}

/// Where the run loop stands.
#[derive(Clone, Debug)]
pub enum Phase {
    /// About to read the modification time of the file at this index.
    Check(usize),
    /// Waiting for the outcome of processing the file at this index, whose
    /// modification time was read as the timestamp.
    Process(usize, Timestamp),
    /// Between two sweeps of watch mode.
    Rest,
    /// Compile mode has finished its sweep.
    Finished,
    /// Stopped on a fatal error.
    Aborted(String),
}

/// The poll interval of watch mode, in milliseconds.
pub const POLL_INTERVAL_MS: u64 = 1000;

/// The run loop over a fixed list of watched files.
pub struct RunLoop {
    mode: Mode,
    states: Vec<WatchState>,
    phase: Phase,
}

/// The phase that comes when the file at index `i` of `n` is done with: the
/// next file, or after the last one the end of compile mode or the rest
/// between two sweeps of watch mode.
pub open spec fn phase_after(mode: Mode, n: nat, i: int) -> Phase {
    if i + 1 < n {
        Phase::Check((i + 1) as usize)
    } else if mode == Mode::Compile {
        Phase::Finished
    } else {
        Phase::Rest
    }
}

/// The phase at the start of a sweep over `n` files.
pub open spec fn sweep_start(mode: Mode, n: nat) -> Phase {
    phase_after(mode, n, -1)
}

/// The action that a phase asks for.
pub open spec fn action_of(phase: Phase) -> Action {
    match phase {
        Phase::Check(i) => Action::Check(i),
        Phase::Process(i, _) => Action::Process(i),
        Phase::Rest => Action::Sleep,
        Phase::Finished => Action::Finish,
        Phase::Aborted(reason) => Action::Abort(reason),
    }
}

/// What the detector remembers after the outcome `o` of processing the file
/// at index `i`, whose modification time was read as `t`: a completed run
/// records `t`; any other outcome changes nothing.
pub open spec fn states_after(states: Seq<WatchState>, i: int, t: Timestamp, o: Outcome) -> Seq<
    WatchState,
> {
    match o {
        Outcome::Completed => states.update(i, recorded(t)),
        _ => states,
    }
}

/// A retryable outcome, such as a failed load, leaves the time recorded for
/// the file as it was, so that the file is tried again; a completed one
/// records the time read before processing.
pub proof fn outcome_records_only_completion(
    states: Seq<WatchState>,
    i: int,
    t: Timestamp,
    reason: String,
)
    requires
        0 <= i < states.len(),
    ensures
        states_after(states, i, t, Outcome::Retryable(reason)) == states,
        states_after(states, i, t, Outcome::Completed)[i] == recorded(t),
        states_after(states, i, t, Outcome::Completed)[i].last_modified == Some(t),
{
}

impl View for RunLoop {
    type V = (Mode, Seq<WatchState>, Phase);

    closed spec fn view(&self) -> (Mode, Seq<WatchState>, Phase) {
        (self.mode, self.states@, self.phase)
    }
}

impl RunLoop {
    /// Whether the phase names a file that exists.
    pub open spec fn wf(&self) -> bool {
        match self@.2 {
            Phase::Check(i) => i < self@.1.len(),
            Phase::Process(i, _) => i < self@.1.len(),
            _ => true,
        }
    }

    fn next_phase(&self, i: usize) -> (r: Phase)
        requires
            i < self.states@.len(),
        ensures
            r == phase_after(self.mode, self.states@.len(), i as int),
    {
        if i < self.states.len() - 1 {
            Phase::Check(i + 1)
        } else {
            match self.mode {
                Mode::Compile => Phase::Finished,
                Mode::Watch => Phase::Rest,
            }
        }
    }

    /// A run loop over `n` files, none of them processed yet.
    pub fn new(mode: Mode, n: usize) -> (r: RunLoop)
        ensures
            r.wf(),
            r@.0 == mode,
            r@.1.len() == n,
            forall|i: int| 0 <= i < n ==> (#[trigger] r@.1[i]).last_modified is None,
            r@.2 == sweep_start(mode, n as nat),
    {
        let mut states: Vec<WatchState> = Vec::new();
        let mut k: usize = 0;
        while k < n
            invariant
                k <= n,
                states@.len() == k,
                forall|i: int| 0 <= i < k ==> (#[trigger] states@[i]).last_modified is None,
            decreases n - k,
        {
            states.push(WatchState::new());
            k = k + 1;
        }
        let phase = if n > 0 {
            Phase::Check(0)
        } else {
            match mode {
                Mode::Compile => Phase::Finished,
                Mode::Watch => Phase::Rest,
            }
        };
        RunLoop { mode, states, phase }
    }

    /// What the caller is to do next.
    pub fn next_action(&self) -> (r: Action)
        ensures
            r == action_of(self@.2),
    {
        match &self.phase {
            Phase::Check(i) => Action::Check(*i),
            Phase::Process(i, _) => Action::Process(*i),
            Phase::Rest => Action::Sleep,
            Phase::Finished => Action::Finish,
            Phase::Aborted(reason) => Action::Abort(reason.clone()),
        }
    }

    /// Takes the modification time read for the file being checked. A file
    /// whose time cannot be read stops the loop with the reason. A file that
    /// needs processing is to be processed; any other is passed over.
    pub fn on_stat(&mut self, r: Result<Timestamp, String>)
        requires
            old(self).wf(),
            old(self)@.2 is Check,
        ensures
            final(self).wf(),
            final(self)@.0 == old(self)@.0,
            final(self)@.1 == old(self)@.1,
            ({
                let i = old(self)@.2->Check_0;
                let state = old(self)@.1[i as int];
                match r {
                    Err(reason) => final(self)@.2 == Phase::Aborted(reason),
                    Ok(t) => if needs_processing(state, t) {
                        final(self)@.2 == Phase::Process(i, t)
                    } else {
                        final(self)@.2 == phase_after(old(self)@.0, old(self)@.1.len(), i as int)
                    },
                }
            }),
    {
        let i = match self.phase {
            Phase::Check(i) => i,
            _ => 0,
        };
        match r {
            Err(reason) => {
                self.phase = Phase::Aborted(reason);
            },
            Ok(t) => {
                if self.states[i].should_process(t) {
                    self.phase = Phase::Process(i, t);
                } else {
                    self.phase = self.next_phase(i);
                }
            },
        }
    }

    /// Takes the outcome of processing the file. A completed run records the
    /// modification time read before it; a retryable one records nothing, so
    /// that the next sweep tries again; a fatal one stops the loop.
    pub fn on_outcome(&mut self, o: Outcome)
        requires
            old(self).wf(),
            old(self)@.2 is Process,
        ensures
            final(self).wf(),
            final(self)@.0 == old(self)@.0,
            ({
                let i = old(self)@.2->Process_0;
                let t = old(self)@.2->Process_1;
                let next = phase_after(old(self)@.0, old(self)@.1.len(), i as int);
                &&& final(self)@.1 == states_after(old(self)@.1, i as int, t, o)
                &&& match o {
                    Outcome::Fatal(reason) => final(self)@.2 == Phase::Aborted(reason),
                    _ => final(self)@.2 == next,
                }
            }),
    {
        let (i, t) = match self.phase {
            Phase::Process(i, t) => (i, t),
            _ => (0, Timestamp { secs: 0, nanos: 0 }),
        };
        match o {
            Outcome::Completed => {
                let mut state = self.states[i];
                state.record_processed(t);
                self.states.set(i, state);
                self.phase = self.next_phase(i);
            },
            Outcome::Retryable(_) => {
                self.phase = self.next_phase(i);
            },
            Outcome::Fatal(reason) => {
                self.phase = Phase::Aborted(reason);
            },
        }
    }

    /// Starts the next sweep after the rest of watch mode.
    pub fn on_slept(&mut self)
        requires
            old(self)@.2 is Rest,
        ensures
            final(self).wf(),
            final(self)@.0 == old(self)@.0,
            final(self)@.1 == old(self)@.1,
            final(self)@.2 == sweep_start(old(self)@.0, old(self)@.1.len()),
    {
        self.phase = if self.states.len() > 0 {
            Phase::Check(0)
        } else {
            match self.mode {
                Mode::Compile => Phase::Finished,
                Mode::Watch => Phase::Rest,
            }
        };
    }

    /// What the detector remembers of the file at index `i`.
    pub fn state(&self, i: usize) -> (r: WatchState)
        requires
            i < self@.1.len(),
        ensures
            r == self@.1[i as int],
    {
        self.states[i]
    }
}

} // verus!
