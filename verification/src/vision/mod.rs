//! Face detection decoding, pose estimation and focus scoring.

pub mod anchors;
pub mod capture;
pub mod detector;
pub mod face;
pub mod focus;
pub mod overlap;
pub mod processor;
pub mod ranking;
pub mod raster;
pub mod suppress;
pub mod tensor;

pub use capture::{CameraConfig, CapturedFrame};
pub use detector::BlazeFaceDetector;
pub use face::{FaceDetection, FaceDetectorError, BLAZEFACE_INPUT_SIZE};
pub use focus::{FocusCalculator, FocusCalculatorConfig, FocusState};
pub use processor::{ProcessingLoop, VisionProcessorConfig};
