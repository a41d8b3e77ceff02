//! The job chain: the ordered list of transformations that one file's
//! effective settings call for.
use vstd::prelude::*;

use crate::settings::{ResizeFilter, SharedSettings, Size};

verus! {

/// One transformation step.
///
/// `Blur` and `Contrast` carry the bit pattern of a single-precision value,
/// as `ImgEditJobs` does.
#[derive(Clone, Copy, Debug, PartialEq, Eq, Structural)]
pub enum Job {
    /// Scale to fit within `width` x `height`, keeping the aspect ratio.
    Resize { width: u32, height: u32, filter: ResizeFilter },
    Blur(u32),
    Sharpen(i32),
    Contrast(u32),
    Brighten(i32),
    HueRotate(i32),
    FlipV,
    FlipH,
    Rotate90,
    Rotate180,
    Rotate270,
    Grayscale,
    Invert,
}

/// The number of stages in the fixed order.
pub const STAGE_COUNT: usize = 13;

/// The place of a job in the fixed order: resize, blur, sharpen, contrast,
/// brighten, hue rotation, vertical flip, horizontal flip, rotations by 90,
/// 180 and 270 degrees, grayscale, invert.
pub open spec fn rank(j: Job) -> nat {
    match j {
        Job::Resize { .. } => 0,
        Job::Blur(_) => 1,
        Job::Sharpen(_) => 2,
        Job::Contrast(_) => 3,
        Job::Brighten(_) => 4,
        Job::HueRotate(_) => 5,
        Job::FlipV => 6,
        Job::FlipH => 7,
        Job::Rotate90 => 8,
        Job::Rotate180 => 9,
        Job::Rotate270 => 10,
        Job::Grayscale => 11,
        Job::Invert => 12,
    }
}

/// The bounds that a resize to `size` fits within: a missing bound is the
/// largest possible one.
pub open spec fn target_of(size: Size) -> (u32, u32) {
    match size {
        Size::Width(w) => (w, u32::MAX),
        Size::Height(h) => (u32::MAX, h),
        Size::WidthHeight(w, h) => (w, h),
    }
}

/// The filter of a resize: the configured one, else Gaussian.
pub open spec fn filter_of(f: Option<ResizeFilter>) -> ResizeFilter {
    match f {
        Some(x) => x,
        None => ResizeFilter::Gaussian,
    }
}

/// The job that stage `k` of the fixed order contributes, if any.
pub open spec fn stage_job(s: SharedSettings, k: nat) -> Option<Job> {
    let j = s.jobs;
    if k == 0 {
        match j.resize {
            Some(r) => Some(
                Job::Resize {
                    width: target_of(r.size).0,
                    height: target_of(r.size).1,
                    filter: filter_of(s.resize_filter),
                },
            ),
            None => None,
        }
    } else if k == 1 {
        match j.blur {
            Some(x) => Some(Job::Blur(x)),
            None => None,
        }
    } else if k == 2 {
        match j.sharpen {
            Some(x) => Some(Job::Sharpen(x)),
            None => None,
        }
    } else if k == 3 {
        match j.adjust_contrast {
            Some(x) => Some(Job::Contrast(x)),
            None => None,
        }
    } else if k == 4 {
        match j.brighten {
            Some(x) => Some(Job::Brighten(x)),
            None => None,
        }
    } else if k == 5 {
        match j.huerotate {
            Some(x) => Some(Job::HueRotate(x)),
            None => None,
        }
    } else if k == 6 {
        if j.flipv { Some(Job::FlipV) } else { None }
    } else if k == 7 {
        if j.fliph { Some(Job::FlipH) } else { None }
    } else if k == 8 {
        if j.rotate90 { Some(Job::Rotate90) } else { None }
    } else if k == 9 {
        if j.rotate180 { Some(Job::Rotate180) } else { None }
    } else if k == 10 {
        if j.rotate270 { Some(Job::Rotate270) } else { None }
    } else if k == 11 {
        if j.grayscale { Some(Job::Grayscale) } else { None }
    } else if k == 12 {
        if j.invert { Some(Job::Invert) } else { None }
    } else {
        None
    }
}

pub open spec fn opt_seq(o: Option<Job>) -> Seq<Job> {
    match o {
        Some(x) => seq![x],
        None => Seq::empty(),
    }
}

/// The jobs of the first `k` stages, in order.
pub open spec fn chain_upto(s: SharedSettings, k: nat) -> Seq<Job>
    decreases k,
{
    if k == 0 {
        Seq::empty()
    } else {
        chain_upto(s, (k - 1) as nat) + opt_seq(stage_job(s, (k - 1) as nat))
    }
}

/// The job chain of the effective settings `s`.
pub open spec fn job_chain(s: SharedSettings) -> Seq<Job> {
    chain_upto(s, STAGE_COUNT as nat)
}

/// The bounds that a resize to `size` fits within.
pub fn resize_target(size: Size) -> (r: (u32, u32))
    ensures
        r == target_of(size),
{
    match size {
        Size::Width(w) => (w, u32::MAX),
        Size::Height(h) => (u32::MAX, h),
        Size::WidthHeight(w, h) => (w, h),
    }
}

fn stage(s: &SharedSettings, k: usize) -> (r: Option<Job>)
    ensures
        r == stage_job(*s, k as nat),
{
    let j = &s.jobs;
    if k == 0 {
        match j.resize {
            Some(r) => {
                let (width, height) = resize_target(r.size);
                let filter = match s.resize_filter {
                    Some(f) => f,
                    None => ResizeFilter::Gaussian,
                };
                Some(Job::Resize { width, height, filter })
            },
            None => None,
        }
    } else if k == 1 {
        match j.blur {
            Some(x) => Some(Job::Blur(x)),
            None => None,
        }
    } else if k == 2 {
        match j.sharpen {
            Some(x) => Some(Job::Sharpen(x)),
            None => None,
        }
    } else if k == 3 {
        match j.adjust_contrast {
            Some(x) => Some(Job::Contrast(x)),
            None => None,
        }
    } else if k == 4 {
        match j.brighten {
            Some(x) => Some(Job::Brighten(x)),
            None => None,
        }
    } else if k == 5 {
        match j.huerotate {
            Some(x) => Some(Job::HueRotate(x)),
            None => None,
        }
    } else if k == 6 {
        if j.flipv { Some(Job::FlipV) } else { None }
    } else if k == 7 {
        if j.fliph { Some(Job::FlipH) } else { None }
    } else if k == 8 {
        if j.rotate90 { Some(Job::Rotate90) } else { None }
    } else if k == 9 {
        if j.rotate180 { Some(Job::Rotate180) } else { None }
    } else if k == 10 {
        if j.rotate270 { Some(Job::Rotate270) } else { None }
    } else if k == 11 {
        if j.grayscale { Some(Job::Grayscale) } else { None }
    } else if k == 12 {
        if j.invert { Some(Job::Invert) } else { None }
    } else {
        None
    }
}

/// Builds the job chain of the effective settings `s`: one job for each
/// value that is present and each toggle that is on, in the fixed order.
pub fn build_jobs(s: &SharedSettings) -> (r: Vec<Job>)
    ensures
        r@ == job_chain(*s),
{
    let mut chain: Vec<Job> = Vec::new();
    let mut k: usize = 0;
    while k < STAGE_COUNT
        invariant
            k <= STAGE_COUNT,
            chain@ == chain_upto(*s, k as nat),
        decreases STAGE_COUNT - k,
    {
        match stage(s, k) {
            Some(job) => chain.push(job),
            None => {},
        }
        assert(chain@ =~= chain_upto(*s, (k + 1) as nat));
        k = k + 1;
    }
    chain
}

proof fn stage_rank(s: SharedSettings, k: nat)
    ensures
        stage_job(s, k) is Some ==> k < STAGE_COUNT && rank(stage_job(s, k)->0) == k,
{
}

proof fn chain_upto_order(s: SharedSettings, k: nat)
    ensures
        ({
            let c = chain_upto(s, k);
            &&& forall|i: int| 0 <= i < c.len() ==> rank(#[trigger] c[i]) < k
            &&& forall|i: int| 0 <= i < c.len() ==> stage_job(s, rank(#[trigger] c[i]))
                == Some(c[i])
            &&& forall|i: int, j: int| 0 <= i < j < c.len() ==> rank(#[trigger] c[i]) < rank(
                #[trigger] c[j],
            )
            &&& forall|m: nat|
                m < k && (#[trigger] stage_job(s, m)) is Some ==> exists|i: int|
                    0 <= i < c.len() && rank(#[trigger] c[i]) == m
        }),
    decreases k,
{
    if k > 0 {
        let p = (k - 1) as nat;
        chain_upto_order(s, p);
        stage_rank(s, p);
        let prev = chain_upto(s, p);
        let c = chain_upto(s, k);
        assert(c == prev + opt_seq(stage_job(s, p)));
        assert forall|i: int| 0 <= i < prev.len() implies c[i] == prev[i] by {}
        assert forall|m: nat|
            m < k && (#[trigger] stage_job(s, m)) is Some implies exists|i: int|
                0 <= i < c.len() && rank(#[trigger] c[i]) == m by {
            if m < p {
                let i = choose|i: int| 0 <= i < prev.len() && rank(#[trigger] prev[i]) == m;
                assert(c[i] == prev[i]);
            } else {
                assert(c[prev.len() as int] == stage_job(s, p)->0);
            }
        }
    }
}

/// The job chain lists its jobs in the fixed order: each job comes from the
/// stage of its rank, ranks strictly increase along the chain, and every
/// stage whose value is present or whose toggle is on has its job there.
pub proof fn job_chain_order(s: SharedSettings)
    ensures
        ({
            let c = job_chain(s);
            &&& forall|i: int| 0 <= i < c.len() ==> stage_job(s, rank(#[trigger] c[i])) == Some(
                c[i],
            )
            &&& forall|i: int, j: int| 0 <= i < j < c.len() ==> rank(#[trigger] c[i]) < rank(
                #[trigger] c[j],
            )
            &&& forall|m: nat|
                (#[trigger] stage_job(s, m)) is Some ==> exists|i: int|
                    0 <= i < c.len() && rank(#[trigger] c[i]) == m
        }),
{
    chain_upto_order(s, STAGE_COUNT as nat);
    assert forall|m: nat| (#[trigger] stage_job(s, m)) is Some implies m < STAGE_COUNT by {
        stage_rank(s, m);
    }
}

} // verus!
