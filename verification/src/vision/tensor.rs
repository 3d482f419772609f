//! Laying out a frame as input for the detector model.
//!
//! The model takes the three color planes of a 128 by 128 image one after
//! the other: all red samples row by row, then all green, then all blue.

use vstd::prelude::*;
use vstd::string::StringExecFns;
use crate::vision::face::{FaceDetectorError, BLAZEFACE_INPUT_SIZE};
use crate::vision::raster::{
    can_resample, fits_resampler, holds_rgb, resampled, rgb_from_raw, rgb_into_raw, rgb_len,
    rgb_resize,
};

verus! {

/// Pixels of the model's input.
pub const INPUT_PIXELS: usize = 16384;

/// The samples of `pixels` plane by plane.
pub open spec fn planes(pixels: Seq<u8>) -> Seq<u8> {
    Seq::new(
        3 * INPUT_PIXELS as nat,
        |i: int| pixels[3 * (i % INPUT_PIXELS as int) + i / INPUT_PIXELS as int],
    )
}

/// Rearranges interleaved RGB samples of a 128 by 128 image into planes.
pub fn to_planar(pixels: &Vec<u8>) -> (planar: Vec<u8>)
    requires
        pixels@.len() == 3 * INPUT_PIXELS,
    ensures
        planar@ == planes(pixels@),
        planar@.len() == 3 * INPUT_PIXELS,
        forall|c: int, p: int|
            0 <= c < 3 && 0 <= p < INPUT_PIXELS ==> planar@[c * INPUT_PIXELS + p]
                == #[trigger] pixels@[3 * p + c],
{
    let mut planar: Vec<u8> = Vec::new();
    let mut i: usize = 0;
    while i < 3 * INPUT_PIXELS
        invariant
            0 <= i <= 3 * INPUT_PIXELS,
            pixels@.len() == 3 * INPUT_PIXELS,
            planar.len() == i,
            forall|j: int| 0 <= j < i ==> planar@[j] == planes(pixels@)[j],
        decreases 3 * INPUT_PIXELS - i,
    {
        let p: usize = i % INPUT_PIXELS;
        let c: usize = i / INPUT_PIXELS;
        planar.push(pixels[3 * p + c]);
        i += 1;
    }
    proof {
        assert(planar@ =~= planes(pixels@));
        assert forall|c: int, p: int| 0 <= c < 3 && 0 <= p < INPUT_PIXELS implies planar@[c
            * INPUT_PIXELS + p] == #[trigger] pixels@[3 * p + c] by {
            let i = c * INPUT_PIXELS + p;
            assert(i % INPUT_PIXELS as int == p && i / INPUT_PIXELS as int == c);
        }
    }
    planar
}

/// What `preprocess` returns for a frame that can be used: the frame
/// resampled to the model's input size, plane by plane.
pub open spec fn spec_preprocess(image_data: Seq<u8>, width: u32, height: u32) -> Seq<u8> {
    planes(resampled(image_data, width, height, BLAZEFACE_INPUT_SIZE, BLAZEFACE_INPUT_SIZE))
}

/// Whether a frame can be used: it holds exactly three bytes for each pixel,
/// no fewer and no more, and neither its width nor its height is more than
/// the resampler can take.
pub open spec fn frame_usable(image_data: Seq<u8>, width: u32, height: u32) -> bool {
    image_data.len() == rgb_len(width, height) && can_resample(
        width,
        height,
        BLAZEFACE_INPUT_SIZE,
        BLAZEFACE_INPUT_SIZE,
    )
}

/// Turns a frame of any size into the model's input: 128 by 128 pixels,
/// resampled with the triangle filter, plane by plane.  A frame whose buffer
/// does not have the length that its width and height ask for is refused,
/// and so is one with a side of more than 65_536 pixels.
pub fn preprocess(image_data: &Vec<u8>, width: u32, height: u32) -> (result: Result<
    Vec<u8>,
    FaceDetectorError,
>)
    ensures
        result is Ok <==> frame_usable(image_data@, width, height),
        result is Ok ==> result->Ok_0@ == spec_preprocess(image_data@, width, height),
        result is Ok ==> result->Ok_0@.len() == 3 * INPUT_PIXELS,
        result is Err ==> result->Err_0 is ImageError && result->Err_0.detail()
            == "Invalid image data"@,
{
    if !fits_resampler(width, height, BLAZEFACE_INPUT_SIZE, BLAZEFACE_INPUT_SIZE) {
        return Err(FaceDetectorError::ImageError(String::from_str("Invalid image data")));
    }
    if !holds_rgb(image_data, width, height) {
        return Err(FaceDetectorError::ImageError(String::from_str("Invalid image data")));
    }
    let img = match rgb_from_raw(width, height, image_data.clone()) {
        Some(img) => img,
        None => {
            return Err(FaceDetectorError::ImageError(String::from_str("Invalid image data")));
        },
    };
    let resized = rgb_resize(&img, BLAZEFACE_INPUT_SIZE, BLAZEFACE_INPUT_SIZE);
    let pixels = rgb_into_raw(resized);
    Ok(to_planar(&pixels))
}

} // verus!
