//! Images and the transformations of the image crate that take no
//! floating-point parameter.
use vstd::prelude::*;

use crate::jobs::Job;
use crate::settings::ResizeFilter;

verus! {

/// The image crate's decoded image, which the library carries without
/// looking inside.
#[verifier::external_type_specification]
#[verifier::external_body]
pub struct ExDynamicImage(image::DynamicImage);

/// A decoded image together with its width and height in pixels, and the
/// jobs that the library has applied to it, in order.
pub struct Picture {
    image: image::DynamicImage,
    width: u32,
    height: u32,
    applied: Ghost<Seq<Job>>,
}

impl View for Picture {
    type V = (u32, u32);

    /// The width and height of the image.
    closed spec fn view(&self) -> (u32, u32) {
        (self.width, self.height)
    }
}

/// The size that the image crate's `resize` gives an image of `width` x
/// `height` asked to fit within `nwidth` x `nheight`: the largest size
/// within those bounds with the same aspect ratio, each side rounded down.
pub open spec fn fit_within(width: u32, height: u32, nwidth: u32, nheight: u32) -> (u32, u32) {
    let use_width = nwidth * height <= width * nheight;
    let intermediate: int = if use_width {
        height * nwidth / (width as int)
    } else {
        width * nheight / (height as int)
    };
    if use_width {
        if intermediate <= u32::MAX {
            (nwidth, intermediate as u32)
        } else {
            ((nwidth * u32::MAX / intermediate) as u32, u32::MAX)
        }
    } else if intermediate <= u32::MAX {
        (intermediate as u32, nheight)
    } else {
        (u32::MAX, (nheight * u32::MAX / intermediate) as u32)
    }
}

/// Whether the image crate can compute the size of a resize of a `width` x
/// `height` image to a width bound `nwidth`: it divides by the width when
/// the width bound is the tighter one, which for a zero width is the case
/// exactly when the width bound or the height is zero.
pub open spec fn can_fit(width: u32, height: u32, nwidth: u32) -> bool {
    width > 0 || (nwidth > 0 && height > 0)
}

/// Whether a job takes a floating-point parameter, and so is applied by the
/// caller rather than by the library.
pub open spec fn is_float_job(j: Job) -> bool {
    j is Blur || j is Sharpen || j is Contrast
}

/// Whether the library can apply job `j` to an image of size `dims`.
pub open spec fn job_applies(dims: (u32, u32), j: Job) -> bool {
    match j {
        Job::Resize { width, .. } => can_fit(dims.0, dims.1, width),
        _ => !is_float_job(j),
    }
}

/// The size of an image of size `dims` after job `j`.
pub open spec fn dims_after(dims: (u32, u32), j: Job) -> (u32, u32) {
    match j {
        Job::Resize { width, height, .. } => fit_within(dims.0, dims.1, width, height),
        Job::Rotate90 | Job::Rotate270 => (dims.1, dims.0),
        _ => dims,
    }
}

/// Relies on `GenericImageView::dimensions` of the image crate for the
/// width and height of `image`.
#[verifier::external_body]
fn decoded(image: image::DynamicImage) -> (r: Picture)
    ensures
        r.applied() == Seq::<Job>::empty(),
{
    let (width, height) = image::GenericImageView::dimensions(&image);
    Picture { image, width, height, applied: Ghost(Seq::empty()) }
}

/// The job as the library applies it: a brightening by more than the
/// largest channel value saturates every channel of the image crate's
/// 8-bit images as a brightening by that value does, and is applied as one.
pub open spec fn as_applied(j: Job) -> Job {
    match j {
        Job::Brighten(v) => if v > 255 {
            Job::Brighten(255)
        } else {
            j
        },
        _ => j,
    }
}

/// The jobs `from..to` as the library applies them.
pub open spec fn applied_jobs(jobs: Seq<Job>, from: int, to: int) -> Seq<Job> {
    jobs.subrange(from, to).map_values(|j: Job| as_applied(j))
}

impl Picture {
    /// The jobs that the library has applied to this picture, in order.
    pub closed spec fn applied(&self) -> Seq<Job> {
        self.applied@
    }

    /// A picture of a decoded image, with no job applied yet.
    pub fn new(image: image::DynamicImage) -> (r: Picture)
        ensures
            r.applied() == Seq::<Job>::empty(),
    {
        decoded(image)
    }

    /// The width and height of the image.
    pub fn dimensions(&self) -> (r: (u32, u32))
        ensures
            r == self@,
    {
        (self.width, self.height)
    }

    /// The image itself.
    pub fn image(&self) -> &image::DynamicImage {
        &self.image
    }

    /// Gives up the image.
    pub fn into_image(self) -> image::DynamicImage {
        self.image
    }
}

/// Relies on `DynamicImage::resize`, which scales to `fit_within` the bounds
/// with the given filter and divides only as `can_fit` allows, and on
/// `GenericImageView::dimensions` for the size of the result.
#[verifier::external_body]
fn resized(p: &Picture, w: u32, h: u32, filter: ResizeFilter) -> (r: Picture)
    requires
        can_fit(p@.0, p@.1, w),
    ensures
        r@ == fit_within(p@.0, p@.1, w, h),
        r.applied() == p.applied().push(Job::Resize { width: w, height: h, filter }),
{
    let kind = match filter {
        ResizeFilter::Nearest => image::FilterType::Nearest,
        ResizeFilter::Triangle => image::FilterType::Triangle,
        ResizeFilter::CatmullRom => image::FilterType::CatmullRom,
        ResizeFilter::Gaussian => image::FilterType::Gaussian,
        ResizeFilter::Lanczos3 => image::FilterType::Lanczos3,
    };
    let image = p.image.resize(w, h, kind);
    let (width, height) = image::GenericImageView::dimensions(&image);
    let applied = Ghost(p.applied@.push(Job::Resize { width: w, height: h, filter }));
    Picture { image, width, height, applied }
}

/// Relies on `DynamicImage::brighten`, which keeps the size and adds
/// `value` to each channel as an `i32` before clamping (so the sum must not
/// overflow), and on
/// `GenericImageView::dimensions` for the size of the result.
#[verifier::external_body]
fn brightened(p: &Picture, value: i32) -> (r: Picture)
    requires
        value <= i32::MAX - 255,
    ensures
        r@ == p@,
        r.applied() == p.applied().push(Job::Brighten(value)),
{
    let image = p.image.brighten(value);
    let (width, height) = image::GenericImageView::dimensions(&image);
    Picture { image, width, height, applied: Ghost(p.applied@.push(Job::Brighten(value))) }
}

/// Relies on `DynamicImage::huerotate`, which keeps the size, and on
/// `GenericImageView::dimensions` for the size of the result.
#[verifier::external_body]
fn hue_rotated(p: &Picture, degrees: i32) -> (r: Picture)
    ensures
        r@ == p@,
        r.applied() == p.applied().push(Job::HueRotate(degrees)),
{
    let image = p.image.huerotate(degrees);
    let (width, height) = image::GenericImageView::dimensions(&image);
    Picture { image, width, height, applied: Ghost(p.applied@.push(Job::HueRotate(degrees))) }
}

/// Relies on `DynamicImage::flipv`, which flips the image upside down and keeps
/// its size, and on `GenericImageView::dimensions` for the size of the result.
#[verifier::external_body]
fn flipv(p: &Picture) -> (r: Picture)
    ensures
        r@ == p@,
        r.applied() == p.applied().push(Job::FlipV),
{
    let image = p.image.flipv();
    let (width, height) = image::GenericImageView::dimensions(&image);
    Picture { image, width, height, applied: Ghost(p.applied@.push(Job::FlipV)) }
}

/// Relies on `DynamicImage::fliph`, which mirrors the image left to right and
/// keeps its size, and on `GenericImageView::dimensions` for the size of the
/// result.
#[verifier::external_body]
fn fliph(p: &Picture) -> (r: Picture)
    ensures
        r@ == p@,
        r.applied() == p.applied().push(Job::FlipH),
{
    let image = p.image.fliph();
    let (width, height) = image::GenericImageView::dimensions(&image);
    Picture { image, width, height, applied: Ghost(p.applied@.push(Job::FlipH)) }
}

/// Relies on `DynamicImage::rotate90`, which turns the image a quarter
/// clockwise, swapping width and height, and on `GenericImageView::dimensions`
/// for the size of the result.
#[verifier::external_body]
fn rotate90(p: &Picture) -> (r: Picture)
    ensures
        r@ == (p@.1, p@.0),
        r.applied() == p.applied().push(Job::Rotate90),
{
    let image = p.image.rotate90();
    let (width, height) = image::GenericImageView::dimensions(&image);
    Picture { image, width, height, applied: Ghost(p.applied@.push(Job::Rotate90)) }
}

/// Relies on `DynamicImage::rotate180`, which turns the image half round and
/// keeps its size, and on `GenericImageView::dimensions` for the size of the
/// result.
#[verifier::external_body]
fn rotate180(p: &Picture) -> (r: Picture)
    ensures
        r@ == p@,
        r.applied() == p.applied().push(Job::Rotate180),
{
    let image = p.image.rotate180();
    let (width, height) = image::GenericImageView::dimensions(&image);
    Picture { image, width, height, applied: Ghost(p.applied@.push(Job::Rotate180)) }
}

/// Relies on `DynamicImage::rotate270`, which turns the image three quarters
/// clockwise, swapping width and height, and on `GenericImageView::dimensions`
/// for the size of the result.
#[verifier::external_body]
fn rotate270(p: &Picture) -> (r: Picture)
    ensures
        r@ == (p@.1, p@.0),
        r.applied() == p.applied().push(Job::Rotate270),
{
    let image = p.image.rotate270();
    let (width, height) = image::GenericImageView::dimensions(&image);
    Picture { image, width, height, applied: Ghost(p.applied@.push(Job::Rotate270)) }
}

/// Relies on `DynamicImage::grayscale`, which drops the colour and keeps the
/// size, and on `GenericImageView::dimensions` for the size of the result.
#[verifier::external_body]
fn grayscale(p: &Picture) -> (r: Picture)
    ensures
        r@ == p@,
        r.applied() == p.applied().push(Job::Grayscale),
{
    let image = p.image.grayscale();
    let (width, height) = image::GenericImageView::dimensions(&image);
    Picture { image, width, height, applied: Ghost(p.applied@.push(Job::Grayscale)) }
}

/// Relies on `DynamicImage::invert`, which inverts the colours in place and
/// keeps the size.
#[verifier::external_body]
fn inverted(p: Picture) -> (r: Picture)
    ensures
        r@ == p@,
        r.applied() == p.applied().push(Job::Invert),
{
    let mut image = p.image;
    image.invert();
    Picture { image, width: p.width, height: p.height, applied: Ghost(p.applied@.push(Job::Invert)) }
}

/// Whether job `j` takes a floating-point parameter.
pub fn is_float(j: &Job) -> (r: bool)
    ensures
        r == is_float_job(*j),
{
    match *j {
        Job::Blur(_) | Job::Sharpen(_) | Job::Contrast(_) => true,
        _ => false,
    }
}

/// Whether the library can apply job `j` to `p`.
pub fn applies(p: &Picture, j: &Job) -> (r: bool)
    ensures
        r == job_applies(p@, *j),
{
    match *j {
        Job::Resize { width, .. } => p.width > 0 || (width > 0 && p.height > 0),
        _ => !is_float(j),
    }
}

/// Applies job `j`, which takes no floating-point parameter, to `p`.
pub fn apply_job(p: Picture, j: &Job) -> (r: Picture)
    requires
        job_applies(p@, *j),
    ensures
        r@ == dims_after(p@, *j),
        r.applied() == p.applied().push(as_applied(*j)),
{
    match *j {
        Job::Resize { width, height, filter } => resized(&p, width, height, filter),
        Job::Brighten(v) => brightened(&p, if v > 255 { 255 } else { v }),
        Job::HueRotate(v) => hue_rotated(&p, v),
        Job::FlipV => flipv(&p),
        Job::FlipH => fliph(&p),
        Job::Rotate90 => rotate90(&p),
        Job::Rotate180 => rotate180(&p),
        Job::Rotate270 => rotate270(&p),
        Job::Grayscale => grayscale(&p),
        Job::Invert => inverted(p),
        _ => p,
    }
}

/// The index of the first job at or after `from` that takes a
/// floating-point parameter, or the length of `jobs` if none does.
pub open spec fn next_float(jobs: Seq<Job>, from: int) -> int
    decreases jobs.len() - from,
{
    if from >= jobs.len() {
        jobs.len() as int
    } else if from < 0 {
        next_float(jobs, 0)
    } else if is_float_job(jobs[from]) {
        from
    } else {
        next_float(jobs, from + 1)
    }
}

/// The size that the jobs `from..to` give to an image of size `d`.
pub open spec fn dims_through(jobs: Seq<Job>, from: int, to: int, d: (u32, u32)) -> (u32, u32)
    decreases to - from,
{
    if to <= from {
        d
    } else {
        dims_after(dims_through(jobs, from, to - 1, d), jobs[to - 1])
    }
}

/// Whether each of the jobs `from..to` applies to the image that the jobs
/// before it gave.
pub open spec fn applies_through(jobs: Seq<Job>, from: int, to: int, d: (u32, u32)) -> bool
    decreases to - from,
{
    to <= from || (applies_through(jobs, from, to - 1, d) && job_applies(
        dims_through(jobs, from, to - 1, d),
        jobs[to - 1],
    ))
}

/// Applies the jobs from `from` on, in order, up to the first one that takes
/// a floating-point parameter. Returns the image and the index where it
/// stopped, or an error if a resize cannot be computed for the image.
pub fn apply_jobs(p: Picture, jobs: &Vec<Job>, from: usize) -> (r: Result<(Picture, usize), String>)
    requires
        from <= jobs@.len(),
    ensures
        match r {
            Ok((q, stop)) => {
                &&& stop == next_float(jobs@, from as int)
                &&& applies_through(jobs@, from as int, stop as int, p@)
                &&& q@ == dims_through(jobs@, from as int, stop as int, p@)
                &&& q.applied() == p.applied() + applied_jobs(jobs@, from as int, stop as int)
            },
            Err(_) => !applies_through(jobs@, from as int, next_float(jobs@, from as int), p@),
        },
{
    let ghost start = p@;
    let mut cur = p;
    let mut i: usize = from;
    while i < jobs.len() && !is_float(&jobs[i])
        invariant
            from <= i <= jobs@.len(),
            next_float(jobs@, from as int) == next_float(jobs@, i as int),
            applies_through(jobs@, from as int, i as int, start),
            start == p@,
            cur@ == dims_through(jobs@, from as int, i as int, start),
            cur.applied() == p.applied() + applied_jobs(jobs@, from as int, i as int),
        decreases jobs@.len() - i,
    {
        if !applies(&cur, &jobs[i]) {
            proof {
                not_applies_beyond(jobs@, from as int, i as int, start);
            }
            return Err(String::from_str("cannot resize an image of zero width"));
        }
        cur = apply_job(cur, &jobs[i]);
        assert(applied_jobs(jobs@, from as int, i + 1) =~= applied_jobs(jobs@, from as int, i as int).push(
            as_applied(jobs@[i as int]),
        ));
        assert(cur.applied() =~= p.applied() + applied_jobs(jobs@, from as int, i + 1));
        i = i + 1;
    }
    Ok((cur, i))
}

proof fn not_applies_beyond(jobs: Seq<Job>, from: int, i: int, d: (u32, u32))
    requires
        0 <= from <= i < jobs.len(),
        next_float(jobs, from) == next_float(jobs, i),
        !is_float_job(jobs[i]),
        !job_applies(dims_through(jobs, from, i, d), jobs[i]),
    ensures
        !applies_through(jobs, from, next_float(jobs, from), d),
{
    let stop = next_float(jobs, from);
    assert(next_float(jobs, i) == next_float(jobs, i + 1));
    next_float_bounds(jobs, i + 1);
    assert(!applies_through(jobs, from, i + 1, d));
    if applies_through(jobs, from, stop, d) {
        applies_through_prefix(jobs, from, i + 1, stop, d);
    }
}

proof fn next_float_bounds(jobs: Seq<Job>, from: int)
    requires
        0 <= from <= jobs.len(),
    ensures
        from <= next_float(jobs, from) <= jobs.len(),
    decreases jobs.len() - from,
{
    if from < jobs.len() && !is_float_job(jobs[from]) {
        next_float_bounds(jobs, from + 1);
    }
}

proof fn applies_through_prefix(jobs: Seq<Job>, from: int, mid: int, to: int, d: (u32, u32))
    requires
        from <= mid <= to,
        applies_through(jobs, from, to, d),
    ensures
        applies_through(jobs, from, mid, d),
    decreases to - mid,
{
    if mid < to {
        applies_through_prefix(jobs, from, mid, to - 1, d);
    }
}

} // verus!
