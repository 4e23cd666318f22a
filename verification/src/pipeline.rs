//! The pipeline executor.
//!
//! [`apply_jobs`] applies a resolved job set to a loaded image in one fixed,
//! documented order — resize, blur, flip vertical, flip horizontal, rotate
//! 90°, rotate 180°, rotate 270°, grayscale, invert — regardless of the
//! order the configuration declared the jobs in. Each step is a no-op when
//! its job is absent. The pixel work itself is the image library's; every
//! call goes through a trusted wrapper whose result is named, and the
//! executor is proved to compose exactly those named results in exactly
//! that order.

use vstd::prelude::*;

use image::DynamicImage;

use crate::config::{FilterKind, SharedSettings, Size};

verus! {

#[verifier::external_type_specification]
#[verifier::external_body]
pub struct ExDynamicImage(DynamicImage);

/// The pixel content of an image, as an abstract value: two images with the
/// same content are the same picture.
pub uninterp spec fn img_content(i: DynamicImage) -> int;

/// What `DynamicImage::resize` returns on a picture, target bounds and
/// filter.
pub uninterp spec fn resized_content(img: int, w: u32, h: u32, filter: int) -> int;

/// What the guarded blur call returns on a picture and a sigma value,
/// written as text: the result of `DynamicImage::blur` when the text reads
/// as a positive normal 32-bit value, the unchanged picture otherwise
/// (`blur` aborts on any other sigma).
pub uninterp spec fn blurred_content(img: int, sigma: Seq<char>) -> int;

/// What `DynamicImage::flipv` returns on a picture.
pub uninterp spec fn flipped_v_content(img: int) -> int;

/// What `DynamicImage::fliph` returns on a picture.
pub uninterp spec fn flipped_h_content(img: int) -> int;

/// What `DynamicImage::rotate90` returns on a picture.
pub uninterp spec fn rotated90_content(img: int) -> int;

/// What `DynamicImage::rotate180` returns on a picture.
pub uninterp spec fn rotated180_content(img: int) -> int;

/// What `DynamicImage::rotate270` returns on a picture.
pub uninterp spec fn rotated270_content(img: int) -> int;

/// What `DynamicImage::grayscale` returns on a picture.
pub uninterp spec fn gray_content(img: int) -> int;

/// What `DynamicImage::invert` leaves behind on a picture.
pub uninterp spec fn inverted_content(img: int) -> int;

/// A distinct code for each resize filter, so that the named resize result
/// can depend on the filter choice.
pub open spec fn filter_code(k: FilterKind) -> int {
    match k {
        FilterKind::Nearest => 0,
        FilterKind::Triangle => 1,
        FilterKind::CatmullRom => 2,
        FilterKind::Gaussian => 3,
        FilterKind::Lanczos3 => 4,
    }
}

/// Relies on image::DynamicImage::resize: the result is a pure function of
/// the picture, the target bounds and the filter.
#[verifier::external_body]
fn image_resize(img: &DynamicImage, w: u32, h: u32, filter: &FilterKind) -> (r: DynamicImage)
    ensures
        img_content(r) == resized_content(img_content(*img), w, h, filter_code(*filter)),
{
    let f = match filter {
        FilterKind::Nearest => image::imageops::FilterType::Nearest,
        FilterKind::Triangle => image::imageops::FilterType::Triangle,
        FilterKind::CatmullRom => image::imageops::FilterType::CatmullRom,
        FilterKind::Gaussian => image::imageops::FilterType::Gaussian,
        FilterKind::Lanczos3 => image::imageops::FilterType::Lanczos3,
    };
    img.resize(w, h, f)
}

/// Relies on str::parse and image::DynamicImage::blur: the result is a
/// pure function of the picture and the sigma text. `blur` aborts unless
/// the sigma is positive and normal, so any text that does not read as
/// such a value leaves the picture unchanged instead of being passed on.
#[verifier::external_body]
fn image_blur(img: &DynamicImage, sigma: &str) -> (r: DynamicImage)
    ensures
        img_content(r) == blurred_content(img_content(*img), sigma@),
{
    match sigma.parse() {
        Ok(s) => {
            let run = || img.blur(s);
            if s.is_normal() && s.is_sign_positive() {
                run()
            } else {
                img.clone()
            }
        },
        Err(_) => img.clone(),
    }
}

/// Relies on image::DynamicImage::flipv: the result is a pure function of
/// the picture.
#[verifier::external_body]
fn image_flipv(img: &DynamicImage) -> (r: DynamicImage)
    ensures
        img_content(r) == flipped_v_content(img_content(*img)),
{
    img.flipv()
}

/// Relies on image::DynamicImage::fliph: the result is a pure function of
/// the picture.
#[verifier::external_body]
fn image_fliph(img: &DynamicImage) -> (r: DynamicImage)
    ensures
        img_content(r) == flipped_h_content(img_content(*img)),
{
    img.fliph()
}

/// Relies on image::DynamicImage::rotate90: the result is a pure function
/// of the picture.
#[verifier::external_body]
fn image_rotate90(img: &DynamicImage) -> (r: DynamicImage)
    ensures
        img_content(r) == rotated90_content(img_content(*img)),
{
    img.rotate90()
}

/// Relies on image::DynamicImage::rotate180: the result is a pure function
/// of the picture.
#[verifier::external_body]
fn image_rotate180(img: &DynamicImage) -> (r: DynamicImage)
    ensures
        img_content(r) == rotated180_content(img_content(*img)),
{
    img.rotate180()
}

/// Relies on image::DynamicImage::rotate270: the result is a pure function
/// of the picture.
#[verifier::external_body]
fn image_rotate270(img: &DynamicImage) -> (r: DynamicImage)
    ensures
        img_content(r) == rotated270_content(img_content(*img)),
{
    img.rotate270()
}

/// Relies on image::DynamicImage::grayscale: the result is a pure function
/// of the picture.
#[verifier::external_body]
fn image_grayscale(img: &DynamicImage) -> (r: DynamicImage)
    ensures
        img_content(r) == gray_content(img_content(*img)),
{
    img.grayscale()
}

/// Relies on image::DynamicImage::invert: it inverts the picture in place,
/// a pure function of the old picture.
#[verifier::external_body]
fn image_invert(img: &mut DynamicImage)
    ensures
        img_content(*final(img)) == inverted_content(img_content(*old(img))),
{
    img.invert()
}

/// The bounds handed to the resize primitive: an unconstrained axis becomes
/// the platform maximum, which the library treats as unbounded while it
/// keeps the aspect ratio locked to the constrained axis.
pub open spec fn resize_target(size: Size) -> (u32, u32) {
    match size {
        Size::Width(x) => (x, u32::MAX),
        Size::Height(y) => (u32::MAX, y),
        Size::WidthHeight(x, y) => (x, y),
    }
}

/// Computes the resize bounds, substituting the platform maximum for an
/// unconstrained axis.
pub fn resize_dimensions(size: &Size) -> (r: (u32, u32))
    ensures
        r == resize_target(*size),
{
    match size {
        Size::Width(x) => (*x, u32::MAX),
        Size::Height(y) => (u32::MAX, *y),
        Size::WidthHeight(x, y) => (*x, *y),
    }
}

/// The filter a resize uses: the configured one, or Gaussian by default.
pub open spec fn effective_filter(s: SharedSettings) -> FilterKind {
    match s.resize_filter {
        Some(k) => k,
        None => FilterKind::Gaussian,
    }
}

/// The canonical pipeline: the content a picture has after every configured
/// job is applied, in the fixed order resize, blur, flip vertical, flip
/// horizontal, rotate 90°, rotate 180°, rotate 270°, grayscale, invert.
pub open spec fn jobs_applied(img: int, s: SharedSettings) -> int {
    let after_resize = match s.jobs.resize {
        Some(rz) => resized_content(
            img,
            resize_target(rz.size).0,
            resize_target(rz.size).1,
            filter_code(effective_filter(s)),
        ),
        None => img,
    };
    let after_blur = match s.jobs.blur {
        Some(sig) => blurred_content(after_resize, sig@),
        None => after_resize,
    };
    let after_flipv = if s.jobs.flipv {
        flipped_v_content(after_blur)
    } else {
        after_blur
    };
    let after_fliph = if s.jobs.fliph {
        flipped_h_content(after_flipv)
    } else {
        after_flipv
    };
    let after_r90 = if s.jobs.rotate90 {
        rotated90_content(after_fliph)
    } else {
        after_fliph
    };
    let after_r180 = if s.jobs.rotate180 {
        rotated180_content(after_r90)
    } else {
        after_r90
    };
    let after_r270 = if s.jobs.rotate270 {
        rotated270_content(after_r180)
    } else {
        after_r180
    };
    let after_gray = if s.jobs.grayscale {
        gray_content(after_r270)
    } else {
        after_r270
    };
    if s.jobs.invert {
        inverted_content(after_gray)
    } else {
        after_gray
    }
}

/// Applies every configured job to a loaded image, in the canonical fixed
/// order; each absent job is a no-op.
pub fn apply_jobs(img: DynamicImage, settings: &SharedSettings) -> (r: DynamicImage)
    ensures
        img_content(r) == jobs_applied(img_content(img), *settings),
{
    let mut cur = img;
    if let Some(rz) = &settings.jobs.resize {
        let dims = resize_dimensions(&rz.size);
        let f = match &settings.resize_filter {
            Some(k) => *k,
            None => FilterKind::Gaussian,
        };
        cur = image_resize(&cur, dims.0, dims.1, &f);
    }
    if let Some(sig) = &settings.jobs.blur {
        cur = image_blur(&cur, sig.as_str());
    }
    if settings.jobs.flipv {
        cur = image_flipv(&cur);
    }
    if settings.jobs.fliph {
        cur = image_fliph(&cur);
    }
    if settings.jobs.rotate90 {
        cur = image_rotate90(&cur);
    }
    if settings.jobs.rotate180 {
        cur = image_rotate180(&cur);
    }
    if settings.jobs.rotate270 {
        cur = image_rotate270(&cur);
    }
    if settings.jobs.grayscale {
        cur = image_grayscale(&cur);
    }
    if settings.jobs.invert {
        image_invert(&mut cur);
    }
    cur
}

} // verus!
