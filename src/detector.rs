//! The change detector: per watched file, the modification time at which it
//! was last processed, and whether a newly read time calls for processing.
use vstd::prelude::*;

verus! {

/// A file modification time: whole seconds relative to the Unix epoch
/// (negative before it) and the nanoseconds past that second.
#[derive(Clone, Copy, Debug, PartialEq, Eq, Structural)]
pub struct Timestamp {
    pub secs: i64,
    pub nanos: u32,
}

/// What the detector remembers of one file: `None` until the file was first
/// processed successfully, then the modification time it had then.
#[derive(Clone, Copy, Debug, PartialEq, Eq, Structural)]
pub struct WatchState {
    pub last_modified: Option<Timestamp>,
}

/// A file needs processing when it was never processed, or when its
/// modification time differs in any way from the one recorded.
pub open spec fn needs_processing(state: WatchState, now: Timestamp) -> bool {
    match state.last_modified {
        None => true,
        Some(t) => t != now,
    }
}

/// The state after a successful pass over a file modified at `t`.
pub open spec fn recorded(t: Timestamp) -> WatchState {
    WatchState { last_modified: Some(t) }
}

impl WatchState {
    /// The state of a file that was never processed.
    pub fn new() -> (r: WatchState)
        ensures
            r.last_modified is None,
    {
        WatchState { last_modified: None }
    }

    /// Whether the file, now modified at `now`, needs processing.
    pub fn should_process(&self, now: Timestamp) -> (r: bool)
        ensures
            r == needs_processing(*self, now),
    {
        match self.last_modified {
            None => true,
            Some(t) => t != now,
        }
    }

    /// Records a successful pass over the file as modified at `t`.
    pub fn record_processed(&mut self, t: Timestamp)
        ensures
            *final(self) == recorded(t),
    {
        self.last_modified = Some(t);
    }
}

/// A file never processed needs processing, whatever its time.
pub proof fn fresh_state_processes(now: Timestamp)
    ensures
        needs_processing(WatchState { last_modified: None }, now),
{
}

/// Once a pass at time `t` is recorded, a query at the same time needs no
/// processing, however often it is asked.
pub proof fn unchanged_time_is_quiet(t: Timestamp)
    ensures
        !needs_processing(recorded(t), t),
{
}

/// Once a pass at time `t1` is recorded, any other time `t2`, earlier or
/// later, needs processing.
pub proof fn changed_time_processes(t1: Timestamp, t2: Timestamp)
    requires
        t2 != t1,
    ensures
        needs_processing(recorded(t1), t2),
{
}

} // verus!
