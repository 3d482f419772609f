//! Pixel buffers of the `image` crate and the two operations on them that
//! the detector needs: wrapping raw bytes and resampling.

use vstd::prelude::*;

verus! {

/// An image of 8-bit RGB pixels, held by the `image` crate.
#[verifier::external_body]
pub struct RgbImage {
    inner: image::ImageBuffer<image::Rgb<u8>, Vec<u8>>,
}

/// The bytes of an image's buffer: three for each pixel, row after row.
pub uninterp spec fn rgb_pixels(img: RgbImage) -> Seq<u8>;

/// Width and height of an image in pixels.
pub uninterp spec fn rgb_size(img: RgbImage) -> (u32, u32);

/// The bytes that resampling with the triangle filter yields for an image of
/// the given bytes, width and height, at a new width and height.
pub uninterp spec fn resampled(
    pixels: Seq<u8>,
    width: u32,
    height: u32,
    new_width: u32,
    new_height: u32,
) -> Seq<u8>;

/// Bytes of an image of the given size: three for each pixel.
pub open spec fn rgb_len(width: u32, height: u32) -> int {
    3 * width * height
}

/// Largest width or height, in pixels, of an image that is resampled and of
/// an image that resampling yields.
pub const MAX_SIDE: u32 = 65_536;

/// Whether an image of the given width and height can be resampled to a new
/// width and height: no side is longer than `MAX_SIDE`, and what is
/// allocated on the way can be addressed.
pub open spec fn can_resample(width: u32, height: u32, new_width: u32, new_height: u32) -> bool {
    &&& width <= MAX_SIDE
    &&& height <= MAX_SIDE
    &&& new_width <= MAX_SIDE
    &&& new_height <= MAX_SIDE
    &&& 16 * width * new_height <= isize::MAX
    &&& rgb_len(new_width, new_height) <= isize::MAX
}

/// Tests `can_resample`.
pub fn fits_resampler(width: u32, height: u32, new_width: u32, new_height: u32) -> (fits: bool)
    ensures
        fits == can_resample(width, height, new_width, new_height),
{
    if width > MAX_SIDE || height > MAX_SIDE || new_width > MAX_SIDE || new_height > MAX_SIDE {
        return false;
    }
    let wide: u64 = width as u64;
    let high: u64 = new_height as u64;
    let across: u64 = new_width as u64;
    assert(wide * high <= 65_536 * 65_536 && across * high <= 65_536 * 65_536 && 16 * width
        * new_height == 16 * (wide * high) && 3 * new_width * new_height == 3 * (across * high))
        by (nonlinear_arith)
        requires
            wide == width,
            high == new_height,
            across == new_width,
            0 <= wide <= 65_536,
            0 <= high <= 65_536,
            0 <= across <= 65_536,
    ;
    16 * (wide * high) <= isize::MAX as u64 && 3 * (across * high) <= isize::MAX as u64
}

/// Tests whether a buffer holds exactly three bytes for each pixel of an
/// image of the given size.
pub fn holds_rgb(data: &Vec<u8>, width: u32, height: u32) -> (exact: bool)
    ensures
        exact == (data@.len() == rgb_len(width, height)),
{
    let wide: u128 = width as u128;
    let high: u128 = height as u128;
    assert(3 * (wide * high) == 3 * width * height && wide * high <= 0xffff_ffff * 0xffff_ffff)
        by (nonlinear_arith)
        requires
            wide == width,
            high == height,
            0 <= wide <= 0xffff_ffff,
            0 <= high <= 0xffff_ffff,
    ;
    data.len() as u128 == 3 * (wide * high)
}

/// `ImageBuffer::from_raw` of the `image` crate, for 8-bit RGB over a `Vec`.
/// It refuses a buffer with fewer than three bytes for each pixel and takes
/// any other as it is, longer ones too.
#[verifier::external_body]
pub(crate) fn rgb_from_raw(width: u32, height: u32, data: Vec<u8>) -> (img: Option<RgbImage>)
    ensures
        img is Some <==> rgb_len(width, height) <= data@.len(),
        img is Some ==> rgb_size(img.unwrap()) == (width, height) && rgb_pixels(img.unwrap())
            == data@,
{
    image::ImageBuffer::from_raw(width, height, data).map(|inner| RgbImage { inner })
}

/// `imageops::resize` of the `image` crate with `FilterType::Triangle`.  The
/// result has the new size and a buffer of exactly three bytes for each
/// pixel; what the bytes are depends on the source image and the new size
/// alone.
///
/// The sizes are limited in two ways.  The crate allocates sixteen bytes
/// for each pixel of an image as wide as the source and as high as the
/// result, then the result itself, and stops the program where either cannot
/// be addressed.  And it locates every row and column of the result in the
/// source in single precision, which holds 24 binary digits: with no side
/// longer than 65_536 a position is off by less than a hundredth of a pixel,
/// so the source pixel under it always gets a weight of about a half or
/// more and the weights never sum to zero.  With longer sides the position
/// can miss every pixel by a whole pixel or more; the weights are then all
/// zero, their quotient is not a number, and the crate stops the program
/// when it turns that into a color sample.
#[verifier::external_body]
pub(crate) fn rgb_resize(img: &RgbImage, new_width: u32, new_height: u32) -> (out: RgbImage)
    requires
        can_resample(rgb_size(*img).0, rgb_size(*img).1, new_width, new_height),
    ensures
        rgb_size(out) == (new_width, new_height),
        rgb_pixels(out).len() == rgb_len(new_width, new_height),
        rgb_pixels(out) == resampled(
            rgb_pixels(*img),
            rgb_size(*img).0,
            rgb_size(*img).1,
            new_width,
            new_height,
        ),
{
    let resized = image::imageops::resize(
        &img.inner,
        new_width,
        new_height,
        image::imageops::FilterType::Triangle,
    );
    RgbImage { inner: resized }
}

/// `ImageBuffer::dimensions` of the `image` crate: the image's width and
/// height.
#[verifier::external_body]
pub(crate) fn rgb_dimensions(img: &RgbImage) -> (size: (u32, u32))
    ensures
        size == rgb_size(*img),
{
    img.inner.dimensions()
}

/// `ImageBuffer::into_raw` of the `image` crate: the image's buffer.
#[verifier::external_body]
pub(crate) fn rgb_into_raw(img: RgbImage) -> (data: Vec<u8>)
    ensures
        data@ == rgb_pixels(img),
{
    img.inner.into_raw()
}

impl RgbImage {
    /// Width and height of the image in pixels.
    pub fn size(&self) -> (size: (u32, u32))
        ensures
            size == rgb_size(*self),
    {
        rgb_dimensions(self)
    }

    /// The bytes of the image's buffer.
    pub fn into_bytes(self) -> (data: Vec<u8>)
        ensures
            data@ == rgb_pixels(self),
    {
        rgb_into_raw(self)
    }
}

} // verus!
