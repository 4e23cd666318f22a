use image::{DynamicImage, RgbImage};
use image_watcher::config::{FilterKind, ImgEditJobs, Resize, SharedSettings, Size};
use image_watcher::pipeline::apply_jobs;

fn sample() -> DynamicImage {
    // Asymmetric in both axes, so flips and rotations all differ.
    DynamicImage::ImageRgb8(RgbImage::from_fn(4, 3, |x, y| {
        image::Rgb([(x * 50) as u8, (y * 70) as u8, (x * 10 + y * 20) as u8])
    }))
}

fn no_jobs() -> SharedSettings {
    SharedSettings {
        jobs: ImgEditJobs {
            resize: None,
            blur: None,
            flipv: false,
            fliph: false,
            rotate90: false,
            rotate180: false,
            rotate270: false,
            grayscale: false,
            invert: false,
        },
        resize_filter: None,
    }
}

#[test]
fn no_jobs_leaves_the_picture_unchanged() {
    assert_eq!(apply_jobs(sample(), &no_jobs()), sample());
}

#[test]
fn flip_vertical_is_applied() {
    let mut s = no_jobs();
    s.jobs.flipv = true;
    assert_eq!(apply_jobs(sample(), &s), sample().flipv());
}

#[test]
fn flip_horizontal_is_applied() {
    let mut s = no_jobs();
    s.jobs.fliph = true;
    assert_eq!(apply_jobs(sample(), &s), sample().fliph());
}

#[test]
fn rotations_are_applied() {
    let mut s = no_jobs();
    s.jobs.rotate90 = true;
    assert_eq!(apply_jobs(sample(), &s), sample().rotate90());
    let mut s = no_jobs();
    s.jobs.rotate180 = true;
    assert_eq!(apply_jobs(sample(), &s), sample().rotate180());
    let mut s = no_jobs();
    s.jobs.rotate270 = true;
    assert_eq!(apply_jobs(sample(), &s), sample().rotate270());
}

#[test]
fn grayscale_is_applied() {
    let mut s = no_jobs();
    s.jobs.grayscale = true;
    assert_eq!(apply_jobs(sample(), &s), sample().grayscale());
}

#[test]
fn invert_is_applied() {
    let mut s = no_jobs();
    s.jobs.invert = true;
    let mut expected = sample();
    expected.invert();
    let got = apply_jobs(sample(), &s);
    assert_eq!(got, expected);
    assert_ne!(got, sample());
}

#[test]
fn blur_is_applied_with_the_given_sigma() {
    let mut s = no_jobs();
    s.jobs.blur = Some("1.5".to_string());
    let got = apply_jobs(sample(), &s);
    assert_eq!(got, sample().blur(1.5));
    assert_ne!(got, sample());
}

#[test]
fn unusable_blur_sigmas_leave_the_picture_unchanged() {
    // The image library aborts on non-positive or non-normal sigmas; the
    // pipeline treats such a sigma as "no blur".
    for sigma in ["-5", "NaN", "inf", "1e-40", "0", "not a number"] {
        let mut s = no_jobs();
        s.jobs.blur = Some(sigma.to_string());
        assert_eq!(apply_jobs(sample(), &s), sample());
    }
}

#[test]
fn resize_bounds_one_axis_with_the_platform_maximum() {
    let mut s = no_jobs();
    s.jobs.resize = Some(Resize { size: Size::Width(2) });
    let got = apply_jobs(sample(), &s);
    let expected = sample().resize(2, u32::MAX, image::imageops::FilterType::Gaussian);
    assert_eq!(got, expected);
    assert_eq!(got.width(), 2);
}

#[test]
fn resize_uses_the_configured_filter() {
    let mut s = no_jobs();
    s.jobs.resize = Some(Resize { size: Size::WidthHeight(2, 2) });
    s.resize_filter = Some(FilterKind::Nearest);
    let got = apply_jobs(sample(), &s);
    let expected = sample().resize(2, 2, image::imageops::FilterType::Nearest);
    assert_eq!(got, expected);
}

#[test]
fn jobs_are_applied_in_the_canonical_order() {
    // flipv before rotate90, whatever the configuration looked like.
    let mut s = no_jobs();
    s.jobs.flipv = true;
    s.jobs.rotate90 = true;
    let got = apply_jobs(sample(), &s);
    assert_eq!(got, sample().flipv().rotate90());
    assert_ne!(got, sample().rotate90().flipv());
}

#[test]
fn full_pipeline_follows_the_canonical_order() {
    let mut s = no_jobs();
    s.jobs.resize = Some(Resize { size: Size::WidthHeight(3, 3) });
    s.jobs.blur = Some("0.9".to_string());
    s.jobs.fliph = true;
    s.jobs.rotate180 = true;
    s.jobs.grayscale = true;
    s.jobs.invert = true;
    let got = apply_jobs(sample(), &s);
    let mut expected = sample()
        .resize(3, 3, image::imageops::FilterType::Gaussian)
        .blur(0.9)
        .fliph()
        .rotate180()
        .grayscale();
    expected.invert();
    assert_eq!(got, expected);
}
