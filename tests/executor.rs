use image::DynamicImage;
use image_watcher::{
    build_jobs, Execution, ImgEditJobs, Job, Outcome, Picture, Request, Resize, SharedSettings,
    Size,
};

fn jobs_with(resize: Option<Size>) -> ImgEditJobs {
    ImgEditJobs {
        resize: resize.map(|size| Resize { size }),
        blur: None,
        sharpen: None,
        adjust_contrast: None,
        brighten: None,
        huerotate: None,
        flipv: false,
        fliph: false,
        rotate90: false,
        rotate180: false,
        rotate270: false,
        grayscale: false,
        invert: false,
    }
}

fn chain(jobs: ImgEditJobs) -> Vec<Job> {
    build_jobs(&SharedSettings { jobs, resize_filter: None })
}

fn saved_size(req: Request) -> (u32, u32) {
    match req {
        Request::Save(p) => p.dimensions(),
        _ => panic!("expected a request to save"),
    }
}

#[test]
fn width_only_resize_keeps_aspect_ratio() {
    let mut ex = Execution::new(chain(jobs_with(Some(Size::Width(100)))));
    assert!(matches!(ex.start(), Request::Load));
    let req = ex.loaded(Ok(Picture::new(DynamicImage::new_rgb8(400, 200))));
    assert_eq!(saved_size(req), (100, 50));
}

#[test]
fn width_and_height_resize_fits_within_both() {
    let mut ex = Execution::new(chain(jobs_with(Some(Size::WidthHeight(100, 100)))));
    let req = ex.loaded(Ok(Picture::new(DynamicImage::new_rgb8(400, 200))));
    assert_eq!(saved_size(req), (100, 50));
}

#[test]
fn height_only_resize_keeps_aspect_ratio() {
    let mut ex = Execution::new(chain(jobs_with(Some(Size::Height(50)))));
    let req = ex.loaded(Ok(Picture::new(DynamicImage::new_rgb8(400, 200))));
    assert_eq!(saved_size(req), (100, 50));
}

#[test]
fn rotation_by_ninety_swaps_the_sides() {
    let mut jobs = jobs_with(None);
    jobs.rotate90 = true;
    jobs.flipv = true;
    let mut ex = Execution::new(chain(jobs));
    let req = ex.loaded(Ok(Picture::new(DynamicImage::new_rgb8(400, 200))));
    assert_eq!(saved_size(req), (200, 400));
}

#[test]
fn rotation_by_one_eighty_keeps_the_sides() {
    let mut jobs = jobs_with(None);
    jobs.rotate180 = true;
    jobs.grayscale = true;
    jobs.invert = true;
    jobs.brighten = Some(10);
    jobs.huerotate = Some(45);
    let mut ex = Execution::new(chain(jobs));
    let req = ex.loaded(Ok(Picture::new(DynamicImage::new_rgb8(30, 20))));
    assert_eq!(saved_size(req), (30, 20));
}

#[test]
fn float_job_is_handed_to_the_caller() {
    let mut jobs = jobs_with(Some(Size::Width(100)));
    jobs.blur = Some(1.0f32.to_bits());
    jobs.rotate270 = true;
    let mut ex = Execution::new(chain(jobs));
    let req = ex.loaded(Ok(Picture::new(DynamicImage::new_rgb8(400, 200))));
    let picture = match req {
        Request::ApplyFloat(Job::Blur(bits), p) => {
            assert_eq!(bits, 1.0f32.to_bits());
            assert_eq!(p.dimensions(), (100, 50));
            p
        }
        _ => panic!("expected a request to blur"),
    };
    let blurred = picture.into_image().blur(f32::from_bits(1.0f32.to_bits()));
    let req = ex.float_applied(Picture::new(blurred));
    assert_eq!(saved_size(req), (50, 100));
}

#[test]
fn failed_load_is_retryable() {
    let mut ex = Execution::new(chain(jobs_with(Some(Size::Width(100)))));
    match ex.loaded(Err("failed to open file a.png".to_string())) {
        Request::Finished(Outcome::Retryable(reason)) => assert_eq!(reason, "failed to open file a.png"),
        _ => panic!("expected a retryable outcome"),
    }
}

#[test]
fn failed_save_is_fatal() {
    let mut ex = Execution::new(chain(jobs_with(None)));
    let req = ex.loaded(Ok(Picture::new(DynamicImage::new_rgb8(4, 2))));
    assert_eq!(saved_size(req), (4, 2));
    match ex.saved(Err("Failed to save.".to_string())) {
        Request::Finished(Outcome::Fatal(reason)) => assert_eq!(reason, "Failed to save."),
        _ => panic!("expected a fatal outcome"),
    }
}

#[test]
fn successful_save_completes() {
    let mut ex = Execution::new(chain(jobs_with(None)));
    let _ = ex.loaded(Ok(Picture::new(DynamicImage::new_rgb8(4, 2))));
    assert!(matches!(ex.saved(Ok(())), Request::Finished(Outcome::Completed)));
}

#[test]
fn resize_of_empty_image_is_fatal() {
    let mut ex = Execution::new(chain(jobs_with(Some(Size::Width(100)))));
    match ex.loaded(Ok(Picture::new(DynamicImage::new_rgb8(0, 0)))) {
        Request::Finished(Outcome::Fatal(reason)) => {
            assert_eq!(reason, "cannot resize an image of zero width")
        }
        _ => panic!("expected a fatal outcome"),
    }
}

#[test]
fn huge_brightening_saturates_without_overflow() {
    let mut jobs = jobs_with(None);
    jobs.brighten = Some(i32::MAX);
    let mut ex = Execution::new(chain(jobs));
    match ex.loaded(Ok(Picture::new(DynamicImage::new_rgb8(2, 2)))) {
        Request::Save(p) => {
            let img = p.into_image();
            assert_eq!(image::GenericImageView::get_pixel(&img, 1, 1).0[..3], [255, 255, 255]);
        }
        _ => panic!("expected a request to save"),
    }
}
