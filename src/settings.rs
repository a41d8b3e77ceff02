//! The settings model: what may be done to each watched image, and how a
//! file's own settings are merged with the shared defaults.
use vstd::prelude::*;

verus! {

/// The target size of a resize.
#[derive(Clone, Copy, Debug, PartialEq, Eq, Structural)]
pub enum Size {
    /// Fit to this width; the height follows from the aspect ratio.
    Width(u32),
    /// Fit to this height; the width follows from the aspect ratio.
    Height(u32),
    /// Fit within both bounds, keeping the aspect ratio.
    WidthHeight(u32, u32),
}

#[derive(Clone, Copy, Debug, PartialEq, Eq, Structural)]
pub struct Resize {
    pub size: Size,
}

/// The sampling filter used for a resize.
#[derive(Clone, Copy, Debug, PartialEq, Eq, Structural)]
pub enum ResizeFilter {
    Nearest,
    Triangle,
    CatmullRom,
    Gaussian,
    Lanczos3,
}

/// The jobs that may be applied to one image.
///
/// `blur` and `adjust_contrast` are single-precision values in the
/// configuration; they are carried here as their IEEE-754 bit patterns
/// (`f32::to_bits`), which the library never interprets.
#[derive(Clone, Copy, Debug, PartialEq, Eq, Structural)]
pub struct ImgEditJobs {
    pub resize: Option<Resize>,
    pub blur: Option<u32>,
    pub sharpen: Option<i32>,
    pub adjust_contrast: Option<u32>,
    pub brighten: Option<i32>,
    pub huerotate: Option<i32>,
    pub flipv: bool,
    pub fliph: bool,
    pub rotate90: bool,
    pub rotate180: bool,
    pub rotate270: bool,
    pub grayscale: bool,
    pub invert: bool,
}

/// Jobs together with the filter that a resize uses.
#[derive(Clone, Copy, Debug, PartialEq, Eq, Structural)]
pub struct SharedSettings {
    pub jobs: ImgEditJobs,
    pub resize_filter: Option<ResizeFilter>,
}

/// One watched file: where it is read, where its result is written, and
/// its settings.
#[derive(Clone, Debug)]
pub struct FileWatch {
    pub path: String,
    pub output: String,
    pub other: SharedSettings,
}

/// The whole configuration: the watched files and the shared defaults.
#[derive(Clone, Debug)]
pub struct Settings {
    pub files_list: Vec<FileWatch>,
    pub other: SharedSettings,
}

/// The first of two optional values that is present.
pub open spec fn first_present<T>(a: Option<T>, b: Option<T>) -> Option<T> {
    match a {
        Some(x) => Some(x),
        None => b,
    }
}

/// The settings that result from merging a file's settings over the shared
/// ones: an optional value of the file wins over the shared one, and a
/// toggle is on when either side turns it on.
pub open spec fn merged(file: SharedSettings, shared: SharedSettings) -> SharedSettings {
    SharedSettings {
        jobs: ImgEditJobs {
            resize: first_present(file.jobs.resize, shared.jobs.resize),
            blur: first_present(file.jobs.blur, shared.jobs.blur),
            sharpen: first_present(file.jobs.sharpen, shared.jobs.sharpen),
            adjust_contrast: first_present(file.jobs.adjust_contrast, shared.jobs.adjust_contrast),
            brighten: first_present(file.jobs.brighten, shared.jobs.brighten),
            huerotate: first_present(file.jobs.huerotate, shared.jobs.huerotate),
            flipv: file.jobs.flipv || shared.jobs.flipv,
            fliph: file.jobs.fliph || shared.jobs.fliph,
            rotate90: file.jobs.rotate90 || shared.jobs.rotate90,
            rotate180: file.jobs.rotate180 || shared.jobs.rotate180,
            rotate270: file.jobs.rotate270 || shared.jobs.rotate270,
            grayscale: file.jobs.grayscale || shared.jobs.grayscale,
            invert: file.jobs.invert || shared.jobs.invert,
        },
        resize_filter: first_present(file.resize_filter, shared.resize_filter),
    }
}

fn or_else<T>(a: Option<T>, b: Option<T>) -> (r: Option<T>)
    ensures
        r == first_present(a, b),
{
    match a {
        Some(x) => Some(x),
        None => b,
    }
}

/// Merges a file's settings (`settings_one`) over the shared defaults
/// (`settings_two`).
pub fn file_share_or_combine(settings_one: SharedSettings, settings_two: SharedSettings) -> (r:
    SharedSettings)
    ensures
        r == merged(settings_one, settings_two),
{
    let one = settings_one.jobs;
    let two = settings_two.jobs;
    SharedSettings {
        jobs: ImgEditJobs {
            resize: or_else(one.resize, two.resize),
            blur: or_else(one.blur, two.blur),
            sharpen: or_else(one.sharpen, two.sharpen),
            adjust_contrast: or_else(one.adjust_contrast, two.adjust_contrast),
            brighten: or_else(one.brighten, two.brighten),
            huerotate: or_else(one.huerotate, two.huerotate),
            flipv: one.flipv || two.flipv,
            fliph: one.fliph || two.fliph,
            rotate90: one.rotate90 || two.rotate90,
            rotate180: one.rotate180 || two.rotate180,
            rotate270: one.rotate270 || two.rotate270,
            grayscale: one.grayscale || two.grayscale,
            invert: one.invert || two.invert,
        },
        resize_filter: or_else(settings_one.resize_filter, settings_two.resize_filter),
    }
}

/// A value that the file sets is the merged value, whatever the shared one
/// is; a value the file leaves out is the shared one; a toggle is on in the
/// merge exactly when the file or the shared settings turn it on.
pub proof fn merge_field_policy(file: SharedSettings, shared: SharedSettings)
    ensures
        ({
            let m = merged(file, shared);
            &&& file.jobs.resize is Some ==> m.jobs.resize == file.jobs.resize
            &&& file.jobs.resize is None ==> m.jobs.resize == shared.jobs.resize
            &&& file.jobs.blur is Some ==> m.jobs.blur == file.jobs.blur
            &&& file.jobs.blur is None ==> m.jobs.blur == shared.jobs.blur
            &&& file.jobs.sharpen is Some ==> m.jobs.sharpen == file.jobs.sharpen
            &&& file.jobs.sharpen is None ==> m.jobs.sharpen == shared.jobs.sharpen
            &&& file.jobs.adjust_contrast is Some ==> m.jobs.adjust_contrast
                == file.jobs.adjust_contrast
            &&& file.jobs.adjust_contrast is None ==> m.jobs.adjust_contrast
                == shared.jobs.adjust_contrast
            &&& file.jobs.brighten is Some ==> m.jobs.brighten == file.jobs.brighten
            &&& file.jobs.brighten is None ==> m.jobs.brighten == shared.jobs.brighten
            &&& file.jobs.huerotate is Some ==> m.jobs.huerotate == file.jobs.huerotate
            &&& file.jobs.huerotate is None ==> m.jobs.huerotate == shared.jobs.huerotate
            &&& file.resize_filter is Some ==> m.resize_filter == file.resize_filter
            &&& file.resize_filter is None ==> m.resize_filter == shared.resize_filter
            &&& m.jobs.flipv == (file.jobs.flipv || shared.jobs.flipv)
            &&& m.jobs.fliph == (file.jobs.fliph || shared.jobs.fliph)
            &&& m.jobs.rotate90 == (file.jobs.rotate90 || shared.jobs.rotate90)
            &&& m.jobs.rotate180 == (file.jobs.rotate180 || shared.jobs.rotate180)
            &&& m.jobs.rotate270 == (file.jobs.rotate270 || shared.jobs.rotate270)
            &&& m.jobs.grayscale == (file.jobs.grayscale || shared.jobs.grayscale)
            &&& m.jobs.invert == (file.jobs.invert || shared.jobs.invert)
        }),
{
}

} // verus!
