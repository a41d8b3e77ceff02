use image::{DynamicImage, GenericImageView, Rgb, RgbImage};
use image_watcher::{Execution, Job, Picture, Request};

const RED: [u8; 3] = [255, 0, 0];
const BLUE: [u8; 3] = [0, 0, 255];

/// A 2 x 1 image: red on the left, blue on the right.
fn red_blue() -> DynamicImage {
    let mut img = RgbImage::new(2, 1);
    img.put_pixel(0, 0, Rgb(RED));
    img.put_pixel(1, 0, Rgb(BLUE));
    DynamicImage::ImageRgb8(img)
}

/// A 1 x 2 image: red on top, blue below.
fn red_over_blue() -> DynamicImage {
    let mut img = RgbImage::new(1, 2);
    img.put_pixel(0, 0, Rgb(RED));
    img.put_pixel(0, 1, Rgb(BLUE));
    DynamicImage::ImageRgb8(img)
}

fn run(jobs: Vec<Job>, img: DynamicImage) -> DynamicImage {
    let mut ex = Execution::new(jobs);
    match ex.loaded(Ok(Picture::new(img))) {
        Request::Save(p) => p.into_image(),
        _ => panic!("expected a request to save"),
    }
}

fn rgb(img: &DynamicImage, x: u32, y: u32) -> [u8; 3] {
    let p = img.get_pixel(x, y).0;
    [p[0], p[1], p[2]]
}

#[test]
fn horizontal_flip_swaps_left_and_right() {
    let out = run(vec![Job::FlipH], red_blue());
    assert_eq!(rgb(&out, 0, 0), BLUE);
    assert_eq!(rgb(&out, 1, 0), RED);
}

#[test]
fn vertical_flip_swaps_top_and_bottom() {
    let out = run(vec![Job::FlipV], red_over_blue());
    assert_eq!(rgb(&out, 0, 0), BLUE);
    assert_eq!(rgb(&out, 0, 1), RED);
}

#[test]
fn half_turn_swaps_left_and_right() {
    let out = run(vec![Job::Rotate180], red_blue());
    assert_eq!(rgb(&out, 0, 0), BLUE);
}

#[test]
fn quarter_turns_move_pixels() {
    let out = run(vec![Job::Rotate90], red_blue());
    assert_eq!(out.dimensions(), (1, 2));
    assert_eq!(rgb(&out, 0, 0), RED);
    assert_eq!(rgb(&out, 0, 1), BLUE);
    let out = run(vec![Job::Rotate270], red_blue());
    assert_eq!(out.dimensions(), (1, 2));
    assert_eq!(rgb(&out, 0, 0), BLUE);
}

#[test]
fn invert_turns_black_white() {
    let out = run(vec![Job::Invert], DynamicImage::new_rgb8(1, 1));
    assert_eq!(rgb(&out, 0, 0), [255, 255, 255]);
}

#[test]
fn grayscale_drops_colour() {
    let out = run(vec![Job::Grayscale], red_blue());
    let [r, g, b] = rgb(&out, 0, 0);
    assert!(r == g && g == b);
}

#[test]
fn brighten_raises_every_channel() {
    let out = run(vec![Job::Brighten(10)], DynamicImage::new_rgb8(1, 1));
    assert_eq!(rgb(&out, 0, 0), [10, 10, 10]);
}

#[test]
fn hue_rotation_changes_red() {
    let out = run(vec![Job::HueRotate(180)], red_blue());
    assert_ne!(rgb(&out, 0, 0), RED);
}
