//! Perception-to-mood pipeline of a desktop companion.
//!
//! Face detections are decoded from raw detector output, turned into an
//! attentiveness score, and fed to a timed mood state machine.  Every
//! real-valued quantity is held as a fixed-point integer (see [`fixed`]), so
//! that each result is an exact function of its inputs.

pub mod fixed;
pub mod state;
pub mod vision;
