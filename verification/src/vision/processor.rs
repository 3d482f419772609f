//! The decisions of the processing loop.
//!
//! Whoever drives the loop waits for frames, runs the detector model and
//! publishes states.  What to do with each frame, and what to publish, is
//! decided here.

use vstd::prelude::*;
use vstd::string::StringExecFns;
use crate::vision::capture::{CameraConfig, CapturedFrame};
use crate::vision::detector::BlazeFaceDetector;
use crate::vision::face::FaceDetection;
use crate::vision::focus::{
    no_face, spec_calculate, spec_from_detection, FocusCalculator, FocusCalculatorConfig,
    FocusState,
};

verus! {

/// Where the pipeline finds its camera and its model, and how often it
/// looks for a face.
#[derive(Debug, Clone)]
pub struct VisionProcessorConfig {
    /// The camera to capture from.
    pub camera: CameraConfig,
    /// Path of the detector model.
    pub model_path: String,
    /// Path of the anchor file, if there is one.
    pub anchors_path: Option<String>,
    /// Whether to look for a face in every frame rather than every other.
    pub detect_every_frame: bool,
}

impl Default for VisionProcessorConfig {
    fn default() -> (config: Self)
        ensures
            config.camera.device_index == 0,
            config.camera.target_fps == 10,
            config.camera.width == 320,
            config.camera.height == 240,
            config.model_path@ == "resources/models/blazeface.onnx"@,
            config.anchors_path is Some,
            config.anchors_path.unwrap()@ == "resources/models/anchors.npy"@,
            !config.detect_every_frame,
    {
        VisionProcessorConfig {
            camera: CameraConfig::default(),
            model_path: String::from_str("resources/models/blazeface.onnx"),
            anchors_path: Some(String::from_str("resources/models/anchors.npy")),
            detect_every_frame: false,
        }
    }
}

/// What to do with a frame that has arrived.
#[derive(Debug, Clone, Copy, PartialEq, Eq, Structural)]
pub struct FramePlan {
    /// The frame is empty and is passed over; nothing else is done with it.
    pub skip: bool,
    /// The frame is handed on for the live preview.
    pub preview: bool,
    /// A face is looked for in the frame.  Otherwise the last known state is
    /// published again with a new time.
    pub detect: bool,
}

/// The number of frames counted after one more, held at `u64::MAX`.
pub open spec fn count_up(frame_count: u64) -> u64 {
    if frame_count == u64::MAX {
        frame_count
    } else {
        (frame_count + 1) as u64
    }
}

/// The plan for a frame, given how many frames were counted before it.
/// Every third frame, starting with the first, goes to the preview.  Every
/// second frame is searched for a face, or every frame if so configured.
pub open spec fn plan_for(frame_empty: bool, frame_count: u64, detect_every_frame: bool) -> FramePlan {
    if frame_empty {
        FramePlan { skip: true, preview: false, detect: false }
    } else {
        let n = count_up(frame_count);
        FramePlan { skip: false, preview: n % 3 == 1, detect: detect_every_frame || n % 2 == 0 }
    }
}

/// What the processing loop remembers from one frame to the next.
pub struct ProcessingLoop {
    detect_every_frame: bool,
    frame_count: u64,
    last_focus_state: FocusState,
}

impl ProcessingLoop {
    /// Whether a face is looked for in every frame.
    pub closed spec fn detect_every_frame(&self) -> bool {
        self.detect_every_frame
    }

    /// Frames counted so far, empty ones left out.
    pub closed spec fn frame_count(&self) -> u64 {
        self.frame_count
    }

    /// The state that was published last.
    pub closed spec fn last_focus_state(&self) -> FocusState {
        self.last_focus_state
    }

    /// A loop that has seen no frame and published nothing.
    pub fn new(detect_every_frame: bool) -> (state: Self)
        ensures
            state.detect_every_frame() == detect_every_frame,
            state.frame_count() == 0,
            state.last_focus_state() == no_face(0),
    {
        ProcessingLoop {
            detect_every_frame,
            frame_count: 0,
            last_focus_state: FocusState::default(),
        }
    }

    /// Counts a frame, unless it is empty, and says what to do with it.
    pub fn on_frame(&mut self, frame: &CapturedFrame) -> (plan: FramePlan)
        ensures
            plan == plan_for(
                frame.data@.len() == 0,
                old(self).frame_count(),
                old(self).detect_every_frame(),
            ),
            final(self).frame_count() == if frame.data@.len() == 0 {
                old(self).frame_count()
            } else {
                count_up(old(self).frame_count())
            },
            final(self).detect_every_frame() == old(self).detect_every_frame(),
            final(self).last_focus_state() == old(self).last_focus_state(),
    {
        if frame.is_empty() {
            return FramePlan { skip: true, preview: false, detect: false };
        }
        if self.frame_count < u64::MAX {
            self.frame_count += 1;
        }
        FramePlan {
            skip: false,
            preview: self.frame_count % 3 == 1,
            detect: self.detect_every_frame || self.frame_count % 2 == 0,
        }
    }

    /// The state to publish after a face was looked for: that of the most
    /// confident detection, scored by `calculator`.  Where there is no
    /// detection, or the calculator does not count the most confident one as
    /// a face, the state is that of no face.  The loop remembers it.
    ///
    /// `roll` is the roll of the most confident detection's head in
    /// millionths of a degree.
    pub fn on_detections(
        &mut self,
        calculator: &FocusCalculator,
        detections: &Vec<FaceDetection>,
        roll: i64,
        timestamp_ms: u64,
    ) -> (state: FocusState)
        requires
            detections@.len() > 0 ==> detections@[0].wf(),
        ensures
            state == spec_published(calculator.config(), detections@, roll, timestamp_ms),
            state.face_present == spec_calculate(
                calculator.config(),
                primary(detections@),
                roll as int,
            ).1,
            state.focus_score == spec_calculate(
                calculator.config(),
                primary(detections@),
                roll as int,
            ).0,
            final(self).last_focus_state() == state,
            final(self).frame_count() == old(self).frame_count(),
            final(self).detect_every_frame() == old(self).detect_every_frame(),
    {
        let state = if detections.len() > 0 {
            let face = &detections[0];
            let (score, present) = calculator.calculate(Some(face), roll);
            if present {
                FocusState::from_detection(Some(face), roll, score, timestamp_ms)
            } else {
                FocusState::from_detection(None, roll, score, timestamp_ms)
            }
        } else {
            let (score, _) = calculator.calculate(None, roll);
            FocusState::from_detection(None, roll, score, timestamp_ms)
        };
        self.last_focus_state = state;
        state
    }

    /// What to publish after a cycle in which the frame could not be
    /// prepared, the model could not be run or its output could not be
    /// decoded: nothing.  The state published last stays in place, and the
    /// loop's memory stays as it is.
    pub fn on_detection_failed(&self) -> (publish: Option<FocusState>)
        ensures
            publish is None,
    {
        None
    }

    /// The state to publish for a frame in which no face is looked for: the
    /// last known state with a new time.  The loop's memory stays as it is.
    pub fn republish(&self, timestamp_ms: u64) -> (state: FocusState)
        ensures
            state == (FocusState { timestamp_ms, ..self.last_focus_state() }),
    {
        self.last_focus_state.restamped(timestamp_ms)
    }
}

/// The state that a cycle publishes: pose, confidence and score of the most
/// confident detection if the calculator counts it as a face, and the state
/// of no face otherwise.  The published flag is the calculator's flag.
pub open spec fn spec_published(
    config: FocusCalculatorConfig,
    detections: Seq<FaceDetection>,
    roll: i64,
    timestamp_ms: u64,
) -> FocusState {
    let outcome = spec_calculate(config, primary(detections), roll as int);
    spec_from_detection(
        if outcome.1 {
            primary(detections)
        } else {
            None
        },
        roll,
        outcome.0 as i64,
        timestamp_ms,
    )
}

/// The most confident of the detections that a detector returned: the first.
pub open spec fn primary(detections: Seq<FaceDetection>) -> Option<FaceDetection> {
    if detections.len() > 0 {
        Some(detections[0])
    } else {
        None
    }
}

/// Score and presence that one cycle arrives at: the model's output is
/// decoded, and the most confident detection is scored.
pub open spec fn cycle_outcome(
    detector: BlazeFaceDetector,
    calculator: FocusCalculator,
    regressors: Seq<i64>,
    scores: Seq<i64>,
    roll: int,
) -> (int, bool) {
    spec_calculate(calculator.config(), primary(detector.spec_decode(regressors, scores)), roll)
}

/// A cycle is a function of what goes into it.  Two detectors with the same
/// anchors and thresholds, with calculators of the same configuration, given
/// the same output of the model and the same roll, arrive at the same score
/// and presence.
pub proof fn lemma_cycle_deterministic(
    detector: BlazeFaceDetector,
    calculator: FocusCalculator,
    regressors: Seq<i64>,
    scores: Seq<i64>,
    roll: int,
    other_detector: BlazeFaceDetector,
    other_calculator: FocusCalculator,
    other_regressors: Seq<i64>,
    other_scores: Seq<i64>,
)
    requires
        detector.anchors() == other_detector.anchors(),
        detector.confidence_threshold() == other_detector.confidence_threshold(),
        detector.nms_threshold() == other_detector.nms_threshold(),
        calculator.config() == other_calculator.config(),
        regressors =~= other_regressors,
        scores =~= other_scores,
    ensures
        cycle_outcome(detector, calculator, regressors, scores, roll) == cycle_outcome(
            other_detector,
            other_calculator,
            other_regressors,
            other_scores,
            roll,
        ),
{
}

} // verus!
