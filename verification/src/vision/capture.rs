//! Frames and the settings they are captured with.

use vstd::prelude::*;
use crate::vision::raster::{
    can_resample, fits_resampler, holds_rgb, resampled, rgb_from_raw, rgb_into_raw, rgb_len, rgb_pixels, rgb_resize, rgb_size, RgbImage,
};

verus! {

/// Which camera to open and how to capture from it.
#[derive(Debug, Clone, Copy)]
pub struct CameraConfig {
    /// Index of the camera device.
    pub device_index: u32,
    /// Frames per second to aim for.
    pub target_fps: u32,
    /// Width of a captured frame in pixels.
    pub width: u32,
    /// Height of a captured frame in pixels.
    pub height: u32,
}

impl Default for CameraConfig {
    fn default() -> (config: Self)
        ensures
            config.device_index == 0,
            config.target_fps == 10,
            config.width == 320,
            config.height == 240,
    {
        CameraConfig { device_index: 0, target_fps: 10, width: 320, height: 240 }
    }
}

/// One captured frame: RGB bytes, row after row.
#[derive(Debug, Clone)]
pub struct CapturedFrame {
    /// Width in pixels.
    pub width: u32,
    /// Height in pixels.
    pub height: u32,
    /// Three bytes for each pixel.
    pub data: Vec<u8>,
    /// When the frame was captured, in milliseconds since the Unix epoch.
    pub timestamp_ms: u64,
}

impl CapturedFrame {
    /// The frame that stands for "no frame yet".
    pub fn empty() -> (frame: Self)
        ensures
            frame.width == 0,
            frame.height == 0,
            frame.data@ == Seq::<u8>::empty(),
            frame.timestamp_ms == 0,
    {
        CapturedFrame { width: 0, height: 0, data: Vec::new(), timestamp_ms: 0 }
    }

    /// Whether the frame holds no bytes.
    pub fn is_empty(&self) -> (empty: bool)
        ensures
            empty == (self.data@.len() == 0),
    {
        self.data.len() == 0
    }

    /// The frame as an image, unless it is empty or holds fewer than three
    /// bytes for each pixel.
    pub fn to_rgb_image(&self) -> (img: Option<RgbImage>)
        ensures
            img is Some <==> self.data@.len() > 0 && rgb_len(self.width, self.height)
                <= self.data@.len(),
            img is Some ==> rgb_size(img.unwrap()) == (self.width, self.height) && rgb_pixels(
                img.unwrap(),
            ) == self.data@,
    {
        if self.is_empty() {
            return None;
        }
        rgb_from_raw(self.width, self.height, self.data.clone())
    }
}

/// Whether a frame can be brought to a new size: it holds exactly three
/// bytes for each pixel, and it has the new size already or neither it nor
/// the new size is larger than the resampler can take.
pub open spec fn can_fit(frame: CapturedFrame, width: u32, height: u32) -> bool {
    &&& frame.data@.len() == rgb_len(frame.width, frame.height)
    &&& ((frame.width == width && frame.height == height) || can_resample(
        frame.width,
        frame.height,
        width,
        height,
    ))
}

/// The bytes of a frame brought to a new size: its own where it has that
/// size already, and resampled ones otherwise.
pub open spec fn fitted_data(frame: CapturedFrame, width: u32, height: u32) -> Seq<u8> {
    if frame.width == width && frame.height == height {
        frame.data@
    } else {
        resampled(frame.data@, frame.width, frame.height, width, height)
    }
}

/// Brings a frame from the camera to the size that the configuration asks
/// for, resampling with the triangle filter where the sizes differ, and
/// stamps it with the given time.  Where the sizes differ, no side of either
/// may be longer than 65_536 pixels.
pub fn fit_frame(frame: CapturedFrame, config: &CameraConfig, timestamp_ms: u64) -> (fitted: Option<
    CapturedFrame,
>)
    ensures
        fitted is Some <==> can_fit(frame, config.width, config.height),
        fitted is Some ==> fitted.unwrap().width == config.width && fitted.unwrap().height
            == config.height && fitted.unwrap().timestamp_ms == timestamp_ms
            && fitted.unwrap().data@ == fitted_data(frame, config.width, config.height),
        fitted is Some ==> fitted.unwrap().data@.len() == rgb_len(config.width, config.height),
{
    let same_size = frame.width == config.width && frame.height == config.height;
    if !same_size && !fits_resampler(frame.width, frame.height, config.width, config.height) {
        return None;
    }
    if !holds_rgb(&frame.data, frame.width, frame.height) {
        return None;
    }
    let ghost source = frame;
    let image = match rgb_from_raw(frame.width, frame.height, frame.data) {
        Some(image) => image,
        None => {
            return None;
        },
    };
    let data = if same_size {
        rgb_into_raw(image)
    } else {
        rgb_into_raw(rgb_resize(&image, config.width, config.height))
    };
    Some(CapturedFrame { width: config.width, height: config.height, data, timestamp_ms })
}

/// What a camera capture is doing.
#[derive(Debug, Clone)]
pub enum CaptureState {
    /// Not set up yet.
    Uninitialized,
    /// Capturing.
    Running,
    /// Stopped.
    Stopped,
    /// Failed, with the reason.
    Error(String),
}

/// Milliseconds between two frames at a target rate; a rate of zero counts
/// as one frame per second.
pub open spec fn spec_frame_interval_ms(target_fps: u32) -> int {
    if target_fps == 0 {
        1000
    } else {
        1000int / (target_fps as int)
    }
}

/// Milliseconds to wait between two frames.
pub fn frame_interval_ms(target_fps: u32) -> (interval: u64)
    ensures
        interval == spec_frame_interval_ms(target_fps),
{
    let fps: u64 = if target_fps == 0 {
        1
    } else {
        target_fps as u64
    };
    1000 / fps
}

/// Brightness of every byte of simulated frame number `frame_count`: it rises
/// from 128 to 177 and starts over.
pub open spec fn simulated_brightness(frame_count: u64) -> int {
    128 + frame_count % 50
}

/// A simulated frame for running without a camera: uniformly grey, with a
/// brightness that changes from frame to frame.
pub fn simulated_frame(config: &CameraConfig, frame_count: u64, timestamp_ms: u64) -> (frame:
    CapturedFrame)
    requires
        rgb_len(config.width, config.height) <= u32::MAX,
    ensures
        frame.width == config.width,
        frame.height == config.height,
        frame.timestamp_ms == timestamp_ms,
        frame.data@.len() == rgb_len(config.width, config.height),
        forall|i: int|
            0 <= i < frame.data@.len() ==> #[trigger] frame.data@[i] == simulated_brightness(
                frame_count,
            ),
{
    let brightness: u8 = 128 + (frame_count % 50) as u8;
    assert(config.width * config.height * 3 == 3 * config.width * config.height)
        by (nonlinear_arith);
    assert(config.width * config.height <= 3 * config.width * config.height) by (nonlinear_arith);
    let len: usize = (config.width * config.height * 3) as usize;
    let mut data: Vec<u8> = Vec::new();
    let mut i: usize = 0;
    while i < len
        invariant
            0 <= i <= len,
            data.len() == i,
            forall|j: int| 0 <= j < i ==> #[trigger] data@[j] == brightness,
        decreases len - i,
    {
        data.push(brightness);
        i += 1;
    }
    CapturedFrame { width: config.width, height: config.height, data, timestamp_ms }
}

} // verus!
