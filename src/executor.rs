//! The pipeline executor: loads one file's image, applies its job chain in
//! order and saves the result, and classifies how that went.
//!
//! The executor does no input or output itself. It is a state machine: each
//! step returns a `Request` for the caller to carry out (load the source,
//! apply a job with a floating-point value, save the result), and the
//! caller hands the result to the matching method.
use vstd::prelude::*;

use crate::jobs::Job;
use crate::picture::{
    applied_jobs, applies_through, apply_jobs, dims_through, is_float_job, next_float, Picture,
};

verus! {

/// How the processing of one file ended.
#[derive(Clone, Debug)]
pub enum Outcome {
    /// The result was written.
    Completed,
    /// The source could not be read this time (it may be being written);
    /// the file is to be tried again on the next sweep.
    Retryable(String),
    /// The result could not be produced or written; this will not go away
    /// by polling again.
    Fatal(String),
}

/// What an execution needs from its caller next.
pub enum Request {
    /// Load the source image and pass the result to `Execution::loaded`.
    Load,
    /// Apply this job, which takes a floating-point value, to the picture
    /// and pass the image to `Execution::float_applied`.
    ApplyFloat(Job, Picture),
    /// Save the picture to the output path and pass the result to
    /// `Execution::saved`.
    Save(Picture),
    /// The execution is over.
    Finished(Outcome),
}

/// Where an execution stands.
#[derive(Clone, Copy, Debug, PartialEq, Eq, Structural)]
pub enum Stage {
    /// Waiting for the source image.
    Load,
    /// Waiting for the caller to apply the job at this index.
    Float(usize),
    /// Waiting for the result to be saved.
    Save,
    /// Over.
    Done,
}

/// One run of the pipeline over one file.
pub struct Execution {
    jobs: Vec<Job>,
    stage: Stage,
}

impl View for Execution {
    type V = (Seq<Job>, Stage);

    closed spec fn view(&self) -> (Seq<Job>, Stage) {
        (self.jobs@, self.stage)
    }
}

/// What running the jobs from `from` on over picture `p` gives: a failure
/// exactly when some job before the next one with a floating-point value
/// cannot be applied (a resize of an image of zero width); otherwise a
/// request to apply that next job, or to save if none is left, with the
/// picture that the jobs before it made of `p`.
pub open spec fn ran(jobs: Seq<Job>, from: int, p: Picture, req: Request, stage: Stage) -> bool {
    let stop = next_float(jobs, from);
    if !applies_through(jobs, from, stop, p@) {
        req is Finished && req->Finished_0 is Fatal && stage == Stage::Done
    } else {
        match req {
            Request::ApplyFloat(j, q) => {
                &&& stop < jobs.len()
                &&& stage == Stage::Float(stop as usize)
                &&& j == jobs[stop]
                &&& q@ == dims_through(jobs, from, stop, p@)
                &&& q.applied() == p.applied() + applied_jobs(jobs, from, stop)
            },
            Request::Save(q) => {
                &&& stop == jobs.len()
                &&& stage == Stage::Save
                &&& q@ == dims_through(jobs, from, stop, p@)
                &&& q.applied() == p.applied() + applied_jobs(jobs, from, stop)
            },
            _ => false,
        }
    }
}

proof fn next_float_range(jobs: Seq<Job>, from: int)
    requires
        0 <= from <= jobs.len(),
    ensures
        from <= next_float(jobs, from) <= jobs.len(),
        next_float(jobs, from) < jobs.len() ==> is_float_job(jobs[next_float(jobs, from)]),
    decreases jobs.len() - from,
{
    if from < jobs.len() && !is_float_job(jobs[from]) {
        next_float_range(jobs, from + 1);
    }
}

impl Execution {
    /// Starts a run of `jobs`; its first request is to load the source.
    pub fn new(jobs: Vec<Job>) -> (r: Execution)
        ensures
            r@ == (jobs@, Stage::Load),
    {
        Execution { jobs, stage: Stage::Load }
    }

    /// The first request of a new execution.
    pub fn start(&self) -> (r: Request)
        requires
            self@.1 == Stage::Load,
        ensures
            r is Load,
    {
        Request::Load
    }

    fn run_from(&mut self, p: Picture, from: usize) -> (req: Request)
        requires
            from <= old(self)@.0.len(),
        ensures
            final(self)@.0 == old(self)@.0,
            ran(old(self)@.0, from as int, p, req, final(self)@.1),
    {
        let ghost jobs = self.jobs@;
        proof {
            next_float_range(jobs, from as int);
        }
        match apply_jobs(p, &self.jobs, from) {
            Ok((q, stop)) => {
                if stop < self.jobs.len() {
                    self.stage = Stage::Float(stop);
                    Request::ApplyFloat(self.jobs[stop], q)
                } else {
                    self.stage = Stage::Save;
                    Request::Save(q)
                }
            },
            Err(reason) => {
                self.stage = Stage::Done;
                Request::Finished(Outcome::Fatal(reason))
            },
        }
    }

    /// Takes the result of loading the source. A failed load ends the run
    /// as retryable, with the load's reason. Otherwise the jobs are applied
    /// in order up to the first that takes a floating-point value.
    pub fn loaded(&mut self, r: Result<Picture, String>) -> (req: Request)
        requires
            old(self)@.1 == Stage::Load,
        ensures
            final(self)@.0 == old(self)@.0,
            match r {
                Err(reason) => req == Request::Finished(Outcome::Retryable(reason))
                    && final(self)@.1 == Stage::Done,
                Ok(p) => ran(old(self)@.0, 0, p, req, final(self)@.1),
            },
    {
        match r {
            Err(reason) => {
                self.stage = Stage::Done;
                Request::Finished(Outcome::Retryable(reason))
            },
            Ok(p) => self.run_from(p, 0),
        }
    }

    /// Takes the picture that the requested floating-point job gave, and
    /// goes on with the jobs after it.
    pub fn float_applied(&mut self, p: Picture) -> (req: Request)
        requires
            old(self)@.1 is Float,
            old(self)@.1->Float_0 < old(self)@.0.len(),
        ensures
            final(self)@.0 == old(self)@.0,
            ran(old(self)@.0, old(self)@.1->Float_0 + 1, p, req, final(self)@.1),
    {
        let k = match self.stage {
            Stage::Float(k) => k,
            _ => 0,
        };
        let n = self.jobs.len();
        assert(k < n);
        self.run_from(p, k + 1)
    }

    /// Takes the result of saving. A failed save ends the run as fatal,
    /// with the save's reason; a successful one completes it.
    pub fn saved(&mut self, r: Result<(), String>) -> (req: Request)
        requires
            old(self)@.1 == Stage::Save,
        ensures
            final(self)@ == (old(self)@.0, Stage::Done),
            match r {
                Ok(_) => req == Request::Finished(Outcome::Completed),
                Err(reason) => req == Request::Finished(Outcome::Fatal(reason)),
            },
    {
        self.stage = Stage::Done;
        match r {
            Ok(_) => Request::Finished(Outcome::Completed),
            Err(reason) => Request::Finished(Outcome::Fatal(reason)),
        }
    }
}

} // verus!
