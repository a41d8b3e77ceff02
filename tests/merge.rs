use image_watcher::{
    file_share_or_combine, watched_files, FileWatch, ImgEditJobs, Job, Resize, ResizeFilter, Settings,
    SharedSettings, Size,
};

fn empty_jobs() -> ImgEditJobs {
    ImgEditJobs {
        resize: None,
        blur: None,
        sharpen: None,
        adjust_contrast: None,
        brighten: None,
        huerotate: None,
        flipv: false,
        fliph: false,
        rotate90: false,
        rotate180: false,
        rotate270: false,
        grayscale: false,
        invert: false,
    }
}

fn settings(jobs: ImgEditJobs, resize_filter: Option<ResizeFilter>) -> SharedSettings {
    SharedSettings { jobs, resize_filter }
}

#[test]
fn file_value_wins_over_shared_value() {
    let mut file = empty_jobs();
    file.sharpen = Some(3);
    file.resize = Some(Resize { size: Size::Width(100) });
    let mut shared = empty_jobs();
    shared.sharpen = Some(9);
    shared.resize = Some(Resize { size: Size::Height(7) });
    let m = file_share_or_combine(
        settings(file, Some(ResizeFilter::Nearest)),
        settings(shared, Some(ResizeFilter::Lanczos3)),
    );
    assert_eq!(m.jobs.sharpen, Some(3));
    assert_eq!(m.jobs.resize, Some(Resize { size: Size::Width(100) }));
    assert_eq!(m.resize_filter, Some(ResizeFilter::Nearest));
}

#[test]
fn absent_file_value_takes_shared_value() {
    let file = empty_jobs();
    let mut shared = empty_jobs();
    shared.brighten = Some(-4);
    shared.blur = Some(1.5f32.to_bits());
    let m = file_share_or_combine(settings(file, None), settings(shared, Some(ResizeFilter::Triangle)));
    assert_eq!(m.jobs.brighten, Some(-4));
    assert_eq!(m.jobs.blur, Some(1.5f32.to_bits()));
    assert_eq!(m.jobs.huerotate, None);
    assert_eq!(m.resize_filter, Some(ResizeFilter::Triangle));
}

#[test]
fn toggles_are_merged_by_or() {
    let mut file = empty_jobs();
    file.flipv = true;
    let mut shared = empty_jobs();
    shared.invert = true;
    shared.flipv = false;
    let m = file_share_or_combine(settings(file, None), settings(shared, None));
    assert!(m.jobs.flipv);
    assert!(m.jobs.invert);
    assert!(!m.jobs.grayscale);
    assert!(!m.jobs.rotate90);
}

#[test]
fn file_false_does_not_turn_off_shared_true() {
    let file = empty_jobs();
    let mut shared = empty_jobs();
    shared.grayscale = true;
    let m = file_share_or_combine(settings(file, None), settings(shared, None));
    assert!(m.jobs.grayscale);
}

#[test]
fn watched_files_merge_and_build_chains() {
    let mut own = empty_jobs();
    own.rotate90 = true;
    own.sharpen = Some(2);
    let mut shared = empty_jobs();
    shared.sharpen = Some(8);
    shared.resize = Some(Resize { size: Size::Height(40) });
    let config = Settings {
        files_list: vec![
            FileWatch { path: "a.png".to_string(), output: "a.min.png".to_string(), other: settings(own, None) },
            FileWatch { path: "b.png".to_string(), output: "out.png".to_string(), other: settings(empty_jobs(), Some(ResizeFilter::Nearest)) },
        ],
        other: settings(shared, None),
    };
    let w = watched_files(&config);
    assert_eq!(w.len(), 2);
    assert_eq!(w[0].path, "a.png");
    assert_eq!(w[0].output, "a.min.png");
    assert_eq!(
        w[0].jobs,
        vec![
            Job::Resize { width: u32::MAX, height: 40, filter: ResizeFilter::Gaussian },
            Job::Sharpen(2),
            Job::Rotate90,
        ]
    );
    assert_eq!(w[1].output, "out.png");
    assert_eq!(
        w[1].jobs,
        vec![Job::Resize { width: u32::MAX, height: 40, filter: ResizeFilter::Nearest }, Job::Sharpen(8)]
    );
}
