use crate::process::ColorType;
use vstd::prelude::*;

verus! {

/// A decoded image of the `image` crate, held opaquely.
#[verifier::external_type_specification]
#[verifier::external_body]
pub struct ExDynamicImage(image::DynamicImage);

/// A resampling filter, variant for variant those of `image::FilterType`.
#[derive(Clone, Copy, Debug, PartialEq, Eq, Structural)]
pub enum Filter {
    Nearest,
    Triangle,
    CatmullRom,
    Gaussian,
    Lanczos3,
}

/// Whether `result` is an image that `DynamicImage::resize` can make of `img` to fit in
/// `new_width` x `new_height` with `filter`. The resampling kernels compute with `f32`
/// functions such as `sin`, whose precision std does not fix, so the pixels are not said to
/// be the same on every machine or every run.
pub uninterp spec fn resizes_to(
    img: image::DynamicImage,
    new_width: u32,
    new_height: u32,
    filter: Filter,
    result: image::DynamicImage,
) -> bool;

/// Width and height of an image, in pixels.
pub uninterp spec fn image_extent(img: image::DynamicImage) -> (u32, u32);

/// The pixels of an image converted to 8-bit RGBA, row by row, four bytes per pixel.
pub uninterp spec fn rgba8_pixels(img: image::DynamicImage) -> Seq<u8>;

/// Width and height of an image, through `GenericImageView::dimensions`.
#[verifier::external_body]
pub(crate) fn image_dimensions(img: &image::DynamicImage) -> (extent: (u32, u32))
    ensures
        extent == image_extent(*img),
{
    image::GenericImageView::dimensions(img)
}

/// The size that `DynamicImage::resize` gives an image of `extent` asked to fit in
/// `new_width` x `new_height`: the largest size of the same aspect ratio that fits.
pub open spec fn resize_extent(extent: (u32, u32), new_width: u32, new_height: u32) -> (u32, u32) {
    let (width, height) = extent;
    let ratio = width as int * new_height as int;
    let new_ratio = new_width as int * height as int;
    if new_ratio <= ratio {
        let intermediate = height as int * new_width as int / width as int;
        if intermediate <= u32::MAX {
            (new_width, intermediate as u32)
        } else {
            ((new_width as int * u32::MAX as int / intermediate) as u32, u32::MAX)
        }
    } else {
        let intermediate = width as int * new_height as int / height as int;
        if intermediate <= u32::MAX {
            (intermediate as u32, new_height)
        } else {
            (u32::MAX, (new_height as int * u32::MAX as int / intermediate) as u32)
        }
    }
}

/// Whether `DynamicImage::resize` takes an image of `extent` to be fitted in a width of
/// `new_width`: the crate divides by the image's width when the image has no columns and
/// either no rows or no width is asked.
pub open spec fn resizable(extent: (u32, u32), new_width: u32) -> bool {
    extent.0 > 0 || (new_width > 0 && extent.1 > 0)
}

/// The size that `DynamicImage::resize` gives an image of `extent` asked to fit in
/// `new_width` x `new_height` (see `resize_extent`), computed ahead of the resize.
pub(crate) fn fitted_extent(extent: (u32, u32), new_width: u32, new_height: u32) -> (fitted: (u32, u32))
    requires
        resizable(extent, new_width),
    ensures
        fitted == resize_extent(extent, new_width, new_height),
{
    let (width, height) = extent;
    let (w, h, nw, nh) = (width as u128, height as u128, new_width as u128, new_height as u128);
    assert(w * nh <= 0xFFFF_FFFF * 0xFFFF_FFFF && nw * h <= 0xFFFF_FFFF * 0xFFFF_FFFF) by (nonlinear_arith)
        requires
            w <= 0xFFFF_FFFF,
            h <= 0xFFFF_FFFF,
            nw <= 0xFFFF_FFFF,
            nh <= 0xFFFF_FFFF,
    ;
    let ratio = w * nh;
    let new_ratio = nw * h;
    if new_ratio <= ratio {
        assert(w > 0) by (nonlinear_arith)
            requires
                new_ratio == nw * h,
                ratio == w * nh,
                new_ratio <= ratio,
                w > 0 || (nw > 0 && h > 0),
        ;
        let intermediate = new_ratio / w;
        if intermediate <= 0xFFFF_FFFF {
            (new_width, intermediate as u32)
        } else {
            assert(nw * 0xFFFF_FFFF <= 0xFFFF_FFFF * 0xFFFF_FFFF) by (nonlinear_arith)
                requires
                    nw <= 0xFFFF_FFFF,
            ;
            ((nw * 0xFFFF_FFFF / intermediate) as u32, 0xFFFF_FFFF)
        }
    } else {
        assert(h > 0) by (nonlinear_arith)
            requires
                new_ratio == nw * h,
                ratio == w * nh,
                new_ratio > ratio,
        ;
        let intermediate = ratio / h;
        if intermediate <= 0xFFFF_FFFF {
            (intermediate as u32, new_height)
        } else {
            assert(nh * 0xFFFF_FFFF <= 0xFFFF_FFFF * 0xFFFF_FFFF) by (nonlinear_arith)
                requires
                    nh <= 0xFFFF_FFFF,
            ;
            (0xFFFF_FFFF, (nh * 0xFFFF_FFFF / intermediate) as u32)
        }
    }
}

/// The image resized with `filter` to fit in `new_width` x `new_height`, keeping its aspect
/// ratio, through `DynamicImage::resize` (the filter converted variant for variant). The
/// contract claims that the result is a resampling of the image with the filter
/// (`resizes_to`), and its size, as the crate's source computes it.
#[verifier::external_body]
pub(crate) fn image_resize(
    img: &image::DynamicImage,
    new_width: u32,
    new_height: u32,
    filter: Filter,
) -> (result: image::DynamicImage)
    requires
        resizable(image_extent(*img), new_width),
    ensures
        resizes_to(*img, new_width, new_height, filter, result),
        image_extent(result) == resize_extent(image_extent(*img), new_width, new_height),
{
    let filter = match filter {
        Filter::Nearest => image::FilterType::Nearest,
        Filter::Triangle => image::FilterType::Triangle,
        Filter::CatmullRom => image::FilterType::CatmullRom,
        Filter::Gaussian => image::FilterType::Gaussian,
        Filter::Lanczos3 => image::FilterType::Lanczos3,
    };
    img.resize(new_width, new_height, filter)
}

/// The image's pixels as 8-bit RGBA, through `DynamicImage::to_rgba`. The contract claims
/// four bytes per pixel of the image's extent.
#[verifier::external_body]
pub(crate) fn image_to_rgba(img: &image::DynamicImage) -> (pixels: Vec<u8>)
    ensures
        pixels@ == rgba8_pixels(*img),
        pixels@.len() == 4 * image_extent(*img).0 * image_extent(*img).1,
{
    img.to_rgba().into_raw()
}

/// The channel layout of an image, with its bits per channel.
pub uninterp spec fn image_color(img: image::DynamicImage) -> ColorType;

/// The channel layout of an image, through `DynamicImage::color`, converted variant by
/// variant. The contract names the layout.
#[verifier::external_body]
pub(crate) fn image_color_type(img: &image::DynamicImage) -> (color_type: ColorType)
    ensures
        color_type == image_color(*img),
{
    match img.color() {
        image::ColorType::Gray(bits) => ColorType::Gray(bits),
        image::ColorType::RGB(bits) => ColorType::RGB(bits),
        image::ColorType::Palette(bits) => ColorType::Palette(bits),
        image::ColorType::GrayA(bits) => ColorType::GrayA(bits),
        image::ColorType::RGBA(bits) => ColorType::RGBA(bits),
        image::ColorType::BGR(bits) => ColorType::BGR(bits),
        image::ColorType::BGRA(bits) => ColorType::BGRA(bits),
    }
}

} // verus!
