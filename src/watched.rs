//! The list of watched files, each with the job chain of its effective
//! settings.
use vstd::prelude::*;

use crate::jobs::{build_jobs, job_chain, Job};
use crate::settings::{file_share_or_combine, merged, Settings};

verus! {

/// One watched file: where it is read, where its result is written, and
/// the jobs to apply, in order.
pub struct WatchedFile {
    pub path: String,
    pub output: String,
    pub jobs: Vec<Job>,
}

/// Whether `w` is the watched form of the file at index `i` of `config`:
/// same paths, and the job chain of the file's settings merged over the
/// shared ones.
pub open spec fn watches(w: WatchedFile, config: Settings, i: int) -> bool {
    let f = config.files_list@[i];
    &&& w.path@ == f.path@
    &&& w.output@ == f.output@
    &&& w.jobs@ == job_chain(merged(f.other, config.other))
}

/// The watched files of `config`, in configuration order.
pub fn watched_files(config: &Settings) -> (r: Vec<WatchedFile>)
    ensures
        r@.len() == config.files_list@.len(),
        forall|i: int| 0 <= i < r@.len() ==> watches(#[trigger] r@[i], *config, i),
{
    let mut list: Vec<WatchedFile> = Vec::new();
    let mut i: usize = 0;
    while i < config.files_list.len()
        invariant
            i <= config.files_list@.len(),
            list@.len() == i,
            forall|j: int| 0 <= j < i ==> watches(#[trigger] list@[j], *config, j),
        decreases config.files_list@.len() - i,
    {
        let f = &config.files_list[i];
        let settings = file_share_or_combine(f.other, config.other);
        list.push(WatchedFile { path: f.path.clone(), output: f.output.clone(), jobs: build_jobs(&settings) });
        i = i + 1;
    }
    list
}

} // verus!
