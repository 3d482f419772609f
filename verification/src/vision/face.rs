//! Face detections and the pose derived from their landmarks.

use vstd::prelude::*;
use vstd::string::StringExecFns;
use crate::fixed::{in_unit, quot, UNIT};

verus! {

/// Side length, in pixels, of the square input that the detector model takes.
pub const BLAZEFACE_INPUT_SIZE: u32 = 128;

/// One detected face, in normalized image coordinates: every value counts
/// millionths, of certainty or of the frame's width or height.
///
/// The landmarks are, in order: right eye, left eye, nose, mouth, right ear,
/// left ear.
#[derive(Clone, Copy, Debug)]
pub struct FaceDetection {
    /// Confidence that this is a face.
    pub confidence: i64,
    /// Bounding box as `(x_min, y_min, x_max, y_max)`.
    pub bbox: (i64, i64, i64, i64),
    /// Six landmark points as `(x, y)`.
    pub landmarks: [(i64, i64); 6],
}

/// Whether all four coordinates of a box lie in the unit interval.
pub open spec fn box_in_frame(b: (i64, i64, i64, i64)) -> bool {
    &&& in_unit(b.0 as int)
    &&& in_unit(b.1 as int)
    &&& in_unit(b.2 as int)
    &&& in_unit(b.3 as int)
}

/// Whether the minimum of a box lies at or before its maximum on both axes.
pub open spec fn box_ordered(b: (i64, i64, i64, i64)) -> bool {
    b.0 <= b.2 && b.1 <= b.3
}

impl FaceDetection {
    /// The confidence and every coordinate lie in the unit interval, and the
    /// box's minimum lies at or before its maximum on both axes.
    pub open spec fn wf(&self) -> bool {
        &&& in_unit(self.confidence as int)
        &&& box_in_frame(self.bbox)
        &&& box_ordered(self.bbox)
        &&& forall|i: int|
            0 <= i < 6 ==> in_unit((#[trigger] self.landmarks[i]).0 as int) && in_unit(
                self.landmarks[i].1 as int,
            )
    }

    /// Center of the bounding box, each coordinate rounded down.
    pub open spec fn spec_center(&self) -> (int, int) {
        ((self.bbox.0 + self.bbox.2) / 2, (self.bbox.1 + self.bbox.3) / 2)
    }

    /// Area of the bounding box in millionths of the frame.
    pub open spec fn spec_size(&self) -> int {
        quot((self.bbox.2 - self.bbox.0) * (self.bbox.3 - self.bbox.1), UNIT as int)
    }

    /// Yaw in millionths of a degree: the horizontal offset of the midpoint
    /// between the eyes from the box center, times 90.  Positive when the head
    /// is turned right.
    pub open spec fn spec_yaw(&self) -> int {
        (self.landmarks[0].0 + self.landmarks[1].0 - self.bbox.0 - self.bbox.2) * 45
    }

    /// Pitch in millionths of a degree: the vertical distance of the nose
    /// below the midpoint between the eyes, less 0.1, times 150.  Positive
    /// when the head is down.
    pub open spec fn spec_pitch(&self) -> int {
        (2 * self.landmarks[2].1 - self.landmarks[0].1 - self.landmarks[1].1 - 200_000) * 75
    }

    /// Tests `wf`.
    pub fn is_valid(&self) -> (b: bool)
        ensures
            b == self.wf(),
    {
        if !(0 <= self.confidence && self.confidence <= UNIT) {
            return false;
        }
        if !(coordinate_ok(self.bbox.0) && coordinate_ok(self.bbox.1) && coordinate_ok(self.bbox.2)
            && coordinate_ok(self.bbox.3)) {
            return false;
        }
        if !(self.bbox.0 <= self.bbox.2 && self.bbox.1 <= self.bbox.3) {
            return false;
        }
        let mut i: usize = 0;
        while i < 6
            invariant
                0 <= i <= 6,
                forall|j: int|
                    0 <= j < i ==> in_unit((#[trigger] self.landmarks[j]).0 as int) && in_unit(
                        self.landmarks[j].1 as int,
                    ),
            decreases 6 - i,
        {
            if !(coordinate_ok(self.landmarks[i].0) && coordinate_ok(self.landmarks[i].1)) {
                return false;
            }
            i += 1;
        }
        true
    }

    /// Center of the bounding box.
    pub fn center(&self) -> (c: (i64, i64))
        requires
            self.wf(),
        ensures
            c.0 == self.spec_center().0,
            c.1 == self.spec_center().1,
    {
        ((self.bbox.0 + self.bbox.2) / 2, (self.bbox.1 + self.bbox.3) / 2)
    }

    /// Area of the bounding box in millionths of the frame.
    pub fn size(&self) -> (a: i64)
        requires
            self.wf(),
        ensures
            a == self.spec_size(),
            0 <= a <= UNIT,
    {
        let w: i64 = self.bbox.2 - self.bbox.0;
        let h: i64 = self.bbox.3 - self.bbox.1;
        assert(0 <= w * h <= 1_000_000_000_000) by (nonlinear_arith)
            requires
                0 <= w <= 1_000_000,
                0 <= h <= 1_000_000,
        ;
        (w * h) / UNIT
    }

    /// Estimated yaw of the head in millionths of a degree.
    pub fn estimate_yaw(&self) -> (yaw: i64)
        requires
            self.wf(),
        ensures
            yaw == self.spec_yaw(),
            -90 * UNIT <= yaw <= 90 * UNIT,
    {
        let eyes: i64 = self.landmarks[0].0 + self.landmarks[1].0;
        let sides: i64 = self.bbox.0 + self.bbox.2;
        (eyes - sides) * 45
    }

    /// Estimated pitch of the head in millionths of a degree.
    pub fn estimate_pitch(&self) -> (pitch: i64)
        requires
            self.wf(),
        ensures
            pitch == self.spec_pitch(),
            -165 * UNIT <= pitch <= 135 * UNIT,
    {
        let eyes: i64 = self.landmarks[0].1 + self.landmarks[1].1;
        let nose: i64 = 2 * self.landmarks[2].1;
        (nose - eyes - 200_000) * 75
    }
}

/// Why a detector could not be set up or could not process a frame.
#[derive(Debug)]
pub enum FaceDetectorError {
    /// The model could not be loaded.
    ModelLoadError(String),
    /// The model could not be run, or its output was malformed.
    InferenceError(String),
    /// The frame could not be turned into model input.
    ImageError(String),
}

impl FaceDetectorError {
    /// The text that came with the error.
    pub open spec fn detail(&self) -> Seq<char> {
        match self {
            FaceDetectorError::ModelLoadError(msg) => msg@,
            FaceDetectorError::InferenceError(msg) => msg@,
            FaceDetectorError::ImageError(msg) => msg@,
        }
    }

    /// The words that introduce each kind of error.
    pub open spec fn heading(&self) -> Seq<char> {
        match self {
            FaceDetectorError::ModelLoadError(_) => "Model load error: "@,
            FaceDetectorError::InferenceError(_) => "Inference error: "@,
            FaceDetectorError::ImageError(_) => "Image error: "@,
        }
    }

    /// The error as one line of text: its heading, then its detail.
    pub fn message(&self) -> (text: String)
        ensures
            text@ == self.heading() + self.detail(),
    {
        match self {
            FaceDetectorError::ModelLoadError(msg) => String::from_str("Model load error: ").concat(
                msg.as_str(),
            ),
            FaceDetectorError::InferenceError(msg) => String::from_str("Inference error: ").concat(
                msg.as_str(),
            ),
            FaceDetectorError::ImageError(msg) => String::from_str("Image error: ").concat(
                msg.as_str(),
            ),
        }
    }
}

/// Tests whether a coordinate lies in the unit interval.
pub fn coordinate_ok(v: i64) -> (r: bool)
    ensures
        r == in_unit(v as int),
{
    0 <= v && v <= UNIT
}

} // verus!
