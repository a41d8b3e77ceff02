use image_watcher::{build_jobs, resize_target, ImgEditJobs, Job, Resize, ResizeFilter, SharedSettings, Size};

fn all_jobs() -> ImgEditJobs {
    ImgEditJobs {
        resize: Some(Resize { size: Size::WidthHeight(10, 20) }),
        blur: Some(2.0f32.to_bits()),
        sharpen: Some(5),
        adjust_contrast: Some((-1.0f32).to_bits()),
        brighten: Some(7),
        huerotate: Some(90),
        flipv: true,
        fliph: true,
        rotate90: true,
        rotate180: true,
        rotate270: true,
        grayscale: true,
        invert: true,
    }
}

#[test]
fn every_job_in_the_fixed_order() {
    let s = SharedSettings { jobs: all_jobs(), resize_filter: Some(ResizeFilter::CatmullRom) };
    let chain = build_jobs(&s);
    assert_eq!(
        chain,
        vec![
            Job::Resize { width: 10, height: 20, filter: ResizeFilter::CatmullRom },
            Job::Blur(2.0f32.to_bits()),
            Job::Sharpen(5),
            Job::Contrast((-1.0f32).to_bits()),
            Job::Brighten(7),
            Job::HueRotate(90),
            Job::FlipV,
            Job::FlipH,
            Job::Rotate90,
            Job::Rotate180,
            Job::Rotate270,
            Job::Grayscale,
            Job::Invert,
        ]
    );
}

#[test]
fn absent_jobs_are_left_out() {
    let mut jobs = all_jobs();
    jobs.resize = None;
    jobs.sharpen = None;
    jobs.flipv = false;
    jobs.rotate180 = false;
    jobs.invert = false;
    let chain = build_jobs(&SharedSettings { jobs, resize_filter: None });
    assert_eq!(
        chain,
        vec![
            Job::Blur(2.0f32.to_bits()),
            Job::Contrast((-1.0f32).to_bits()),
            Job::Brighten(7),
            Job::HueRotate(90),
            Job::FlipH,
            Job::Rotate90,
            Job::Rotate270,
            Job::Grayscale,
        ]
    );
}

#[test]
fn no_jobs_give_an_empty_chain() {
    let mut jobs = all_jobs();
    jobs.resize = None;
    jobs.blur = None;
    jobs.sharpen = None;
    jobs.adjust_contrast = None;
    jobs.brighten = None;
    jobs.huerotate = None;
    jobs.flipv = false;
    jobs.fliph = false;
    jobs.rotate90 = false;
    jobs.rotate180 = false;
    jobs.rotate270 = false;
    jobs.grayscale = false;
    jobs.invert = false;
    assert!(build_jobs(&SharedSettings { jobs, resize_filter: None }).is_empty());
}

#[test]
fn resize_filter_defaults_to_gaussian() {
    let mut jobs = all_jobs();
    jobs.resize = Some(Resize { size: Size::Width(100) });
    let chain = build_jobs(&SharedSettings { jobs, resize_filter: None });
    assert_eq!(chain[0], Job::Resize { width: 100, height: u32::MAX, filter: ResizeFilter::Gaussian });
}

#[test]
fn resize_targets_leave_missing_bound_open() {
    assert_eq!(resize_target(Size::Width(100)), (100, u32::MAX));
    assert_eq!(resize_target(Size::Height(30)), (u32::MAX, 30));
    assert_eq!(resize_target(Size::WidthHeight(100, 100)), (100, 100));
}
