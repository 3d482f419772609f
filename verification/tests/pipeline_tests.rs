use focus_mochi::vision::capture::{frame_interval_ms, simulated_frame, CaptureState};
use focus_mochi::vision::processor::FramePlan;
use focus_mochi::vision::tensor::{preprocess, to_planar};
use focus_mochi::vision::{
    BlazeFaceDetector, CameraConfig, CapturedFrame, FaceDetectorError, FocusCalculator,
    FocusState, ProcessingLoop, VisionProcessorConfig,
};

fn frame(width: u32, height: u32, data: Vec<u8>) -> CapturedFrame {
    CapturedFrame { width, height, data, timestamp_ms: 7 }
}

fn full_frame() -> CapturedFrame {
    frame(2, 1, vec![1, 2, 3, 4, 5, 6])
}

#[test]
fn the_default_pipeline_configuration_has_the_documented_values() {
    let config = VisionProcessorConfig::default();
    assert_eq!(config.model_path, "resources/models/blazeface.onnx");
    assert_eq!(config.anchors_path.as_deref(), Some("resources/models/anchors.npy"));
    assert!(!config.detect_every_frame);
    assert_eq!(config.camera.target_fps, 10);
    assert_eq!(config.camera.width, 320);
    assert_eq!(config.camera.height, 240);
}

#[test]
fn an_empty_frame_has_no_bytes() {
    let empty = CapturedFrame::empty();
    assert_eq!(empty.width, 0);
    assert_eq!(empty.height, 0);
    assert_eq!(empty.timestamp_ms, 0);
    assert!(empty.data.is_empty());
    assert!(!full_frame().is_empty());
}

#[test]
fn a_frame_becomes_an_image_if_it_holds_enough_bytes() {
    assert!(full_frame().to_rgb_image().is_some());
    assert!(frame(2, 1, vec![0; 5]).to_rgb_image().is_none());
    assert!(frame(2, 1, vec![0; 7]).to_rgb_image().is_some());
    assert!(frame(0, 0, vec![0; 1]).to_rgb_image().is_some());
    assert!(frame(u32::MAX, u32::MAX, vec![0; 16]).to_rgb_image().is_none());
}

#[test]
fn capture_states_can_be_told_apart() {
    assert!(matches!(CaptureState::Uninitialized, CaptureState::Uninitialized));
    assert!(matches!(CaptureState::Running, CaptureState::Running));
    assert!(matches!(CaptureState::Stopped, CaptureState::Stopped));
    match CaptureState::Error("no camera".to_string()) {
        CaptureState::Error(reason) => assert_eq!(reason, "no camera"),
        other => panic!("unexpected state {:?}", other),
    }
}

#[test]
fn the_frame_interval_follows_the_target_rate() {
    assert_eq!(frame_interval_ms(10), 100);
    assert_eq!(frame_interval_ms(15), 66);
    assert_eq!(frame_interval_ms(1), 1000);
    assert_eq!(frame_interval_ms(0), 1000);
    assert_eq!(frame_interval_ms(1001), 0);
}

#[test]
fn simulated_frames_are_grey_and_change_in_brightness() {
    let config = CameraConfig { device_index: 0, target_fps: 10, width: 4, height: 3 };
    let first = simulated_frame(&config, 0, 42);
    assert_eq!(first.width, 4);
    assert_eq!(first.height, 3);
    assert_eq!(first.timestamp_ms, 42);
    assert_eq!(first.data, vec![128u8; 36]);
    assert_eq!(simulated_frame(&config, 49, 0).data, vec![177u8; 36]);
    assert_eq!(simulated_frame(&config, 50, 0).data, vec![128u8; 36]);
    assert_eq!(simulated_frame(&config, 123, 0).data, vec![151u8; 36]);
    let none = CameraConfig { device_index: 0, target_fps: 10, width: 0, height: 3 };
    assert!(simulated_frame(&none, 1, 0).is_empty());
}

#[test]
fn empty_frames_are_passed_over_and_not_counted() {
    let mut state = ProcessingLoop::new(false);
    let skip = FramePlan { skip: true, preview: false, detect: false };
    assert_eq!(state.on_frame(&CapturedFrame::empty()), skip);
    assert_eq!(state.on_frame(&CapturedFrame::empty()), skip);
    // The first frame that holds bytes is frame one.
    assert_eq!(
        state.on_frame(&full_frame()),
        FramePlan { skip: false, preview: true, detect: false }
    );
}

#[test]
fn every_other_frame_is_searched_and_every_third_previewed() {
    let mut state = ProcessingLoop::new(false);
    let mut previews = Vec::new();
    let mut detects = Vec::new();
    for n in 1..=12u32 {
        let plan = state.on_frame(&full_frame());
        assert!(!plan.skip);
        if plan.preview {
            previews.push(n);
        }
        if plan.detect {
            detects.push(n);
        }
    }
    assert_eq!(previews, vec![1, 4, 7, 10]);
    assert_eq!(detects, vec![2, 4, 6, 8, 10, 12]);
}

#[test]
fn every_frame_is_searched_if_so_configured() {
    let mut state = ProcessingLoop::new(true);
    for n in 1..=9u32 {
        let plan = state.on_frame(&full_frame());
        assert!(plan.detect);
        assert_eq!(plan.preview, n % 3 == 1);
    }
}

#[test]
fn the_most_confident_detection_is_scored_and_published() {
    let calculator = FocusCalculator::with_defaults();
    let mut state = ProcessingLoop::new(false);
    let detections = BlazeFaceDetector::detect_simulated();
    let published = state.on_detections(&calculator, &detections, 0, 1_000);
    assert!(published.face_present);
    assert_eq!(published.face_confidence, 950_000);
    assert_eq!(published.focus_score, 715_000);
    assert_eq!(published.yaw, 0);
    assert_eq!(published.pitch, 15_000_000);
    assert_eq!(published.roll, 0);
    assert_eq!(published.timestamp_ms, 1_000);
}

#[test]
fn no_detection_publishes_the_absence_of_a_face() {
    let calculator = FocusCalculator::with_defaults();
    let mut state = ProcessingLoop::new(false);
    state.on_detections(&calculator, &BlazeFaceDetector::detect_simulated(), 0, 1_000);
    let published = state.on_detections(&calculator, &Vec::new(), 12_000_000, 2_000);
    assert!(!published.face_present);
    assert_eq!(published.face_confidence, 0);
    assert_eq!(published.focus_score, 0);
    assert_eq!((published.yaw, published.pitch, published.roll), (0, 0, 0));
    assert_eq!(published.timestamp_ms, 2_000);
    let again = state.republish(2_500);
    assert!(!again.face_present);
    assert_eq!(again.timestamp_ms, 2_500);
}

#[test]
fn the_last_state_is_published_again_with_a_new_time() {
    let calculator = FocusCalculator::with_defaults();
    let mut state = ProcessingLoop::new(false);
    let nothing_yet = state.republish(5);
    assert!(!nothing_yet.face_present);
    assert_eq!(nothing_yet.focus_score, 0);
    assert_eq!(nothing_yet.timestamp_ms, 5);

    let published = state.on_detections(&calculator, &BlazeFaceDetector::detect_simulated(), 0, 1_000);
    let again = state.republish(1_066);
    assert_eq!(again.timestamp_ms, 1_066);
    assert_eq!(again.face_present, published.face_present);
    assert_eq!(again.face_confidence, published.face_confidence);
    assert_eq!(again.focus_score, published.focus_score);
    assert_eq!(again.pitch, published.pitch);
    // Publishing again changes nothing that is remembered.
    assert_eq!(state.republish(1_132).focus_score, published.focus_score);
}

#[test]
fn the_default_state_shows_no_face() {
    let state = FocusState::default();
    assert!(!state.face_present);
    assert_eq!(state.face_confidence, 0);
    assert_eq!(state.focus_score, 0);
    assert_eq!((state.yaw, state.pitch, state.roll), (0, 0, 0));
    assert_eq!(state.timestamp_ms, 0);
}

#[test]
fn samples_are_rearranged_into_planes() {
    let mut pixels = Vec::new();
    for p in 0..16384u32 {
        pixels.push((p % 251) as u8);
        pixels.push((p % 241) as u8);
        pixels.push((p % 239) as u8);
    }
    let planar = to_planar(&pixels);
    assert_eq!(planar.len(), 3 * 16384);
    for p in [0usize, 1, 127, 128, 5000, 16383] {
        assert_eq!(planar[p], (p % 251) as u8);
        assert_eq!(planar[16384 + p], (p % 241) as u8);
        assert_eq!(planar[2 * 16384 + p], (p % 239) as u8);
    }
}

#[test]
fn a_frame_of_the_input_size_is_only_rearranged() {
    let mut data = Vec::new();
    for p in 0..16384u32 {
        data.push((p % 256) as u8);
        data.push((p / 64) as u8);
        data.push(9);
    }
    let planar = preprocess(&data, 128, 128).unwrap();
    assert_eq!(planar, to_planar(&data));
}

#[test]
fn a_frame_of_another_size_is_resampled_to_the_input_size() {
    // A frame of one color keeps its color at any size.
    let mut data = Vec::new();
    for _ in 0..(4 * 2) {
        data.extend_from_slice(&[200, 100, 50]);
    }
    let planar = preprocess(&data, 4, 2).unwrap();
    assert_eq!(planar.len(), 3 * 16384);
    assert!(planar[..16384].iter().all(|&v| v == 200));
    assert!(planar[16384..2 * 16384].iter().all(|&v| v == 100));
    assert!(planar[2 * 16384..].iter().all(|&v| v == 50));
}

#[test]
fn resampling_keeps_left_and_right_apart() {
    // Left half black, right half white, 256 by 2 pixels.
    let mut data = Vec::new();
    for _ in 0..2 {
        for x in 0..256 {
            let v = if x < 128 { 0 } else { 255 };
            data.extend_from_slice(&[v, v, v]);
        }
    }
    let planar = preprocess(&data, 256, 2).unwrap();
    for row in [0usize, 64, 127] {
        assert_eq!(planar[row * 128], 0);
        assert_eq!(planar[row * 128 + 32], 0);
        assert_eq!(planar[row * 128 + 96], 255);
        assert_eq!(planar[row * 128 + 127], 255);
    }
}

#[test]
fn a_frame_with_too_many_bytes_is_refused() {
    for (data, width, height) in [
        (vec![0u8; 7], 2u32, 1u32),
        (vec![0; 1], 0, 0),
        (vec![0; 3 * 128 * 128 + 1], 128, 128),
        (vec![0; 3 * 128 * 128], 128, 127),
    ] {
        match preprocess(&data, width, height) {
            Err(FaceDetectorError::ImageError(msg)) => assert_eq!(msg, "Invalid image data"),
            other => panic!("expected an image error, got {:?}", other.map(|v| v.len())),
        }
    }
    assert!(preprocess(&vec![0; 6], 2, 1).is_ok());
}

#[test]
fn a_frame_with_too_few_bytes_is_refused() {
    for (data, width, height) in [(vec![0u8; 5], 2u32, 1u32), (Vec::new(), 1, 1), (vec![0; 100], 100, 100)] {
        match preprocess(&data, width, height) {
            Err(FaceDetectorError::ImageError(msg)) => assert_eq!(msg, "Invalid image data"),
            other => panic!("expected an image error, got {:?}", other.map(|v| v.len())),
        }
    }
}

#[test]
fn a_frame_without_pixels_gives_a_blank_input() {
    let planar = preprocess(&Vec::new(), 0, 0).unwrap();
    assert_eq!(planar, vec![0u8; 3 * 16384]);
}

#[test]
fn a_frame_of_the_configured_size_is_kept() {
    let config = CameraConfig { device_index: 0, target_fps: 10, width: 2, height: 1 };
    let fitted = focus_mochi::vision::capture::fit_frame(full_frame(), &config, 99).unwrap();
    assert_eq!(fitted.width, 2);
    assert_eq!(fitted.height, 1);
    assert_eq!(fitted.data, vec![1, 2, 3, 4, 5, 6]);
    assert_eq!(fitted.timestamp_ms, 99);
}

#[test]
fn a_frame_of_another_size_is_brought_to_the_configured_size() {
    let config = CameraConfig { device_index: 0, target_fps: 10, width: 8, height: 4 };
    let mut data = Vec::new();
    for _ in 0..(3 * 5) {
        data.extend_from_slice(&[10, 20, 30]);
    }
    let fitted = focus_mochi::vision::capture::fit_frame(frame(3, 5, data), &config, 1).unwrap();
    assert_eq!(fitted.width, 8);
    assert_eq!(fitted.height, 4);
    assert_eq!(fitted.data.len(), 8 * 4 * 3);
    for pixel in fitted.data.chunks(3) {
        assert_eq!(pixel, &[10, 20, 30]);
    }
}

#[test]
fn a_frame_with_too_few_bytes_cannot_be_fitted() {
    let config = CameraConfig { device_index: 0, target_fps: 10, width: 8, height: 4 };
    assert!(focus_mochi::vision::capture::fit_frame(frame(3, 5, vec![0; 44]), &config, 1).is_none());
    assert!(focus_mochi::vision::capture::fit_frame(frame(8, 4, vec![0; 95]), &config, 1).is_none());
}

#[test]
fn a_frame_with_too_many_bytes_cannot_be_fitted() {
    let config = CameraConfig { device_index: 0, target_fps: 10, width: 8, height: 4 };
    assert!(focus_mochi::vision::capture::fit_frame(frame(3, 5, vec![0; 46]), &config, 1).is_none());
    assert!(focus_mochi::vision::capture::fit_frame(frame(8, 4, vec![0; 97]), &config, 1).is_none());
    let fitted = focus_mochi::vision::capture::fit_frame(frame(8, 4, vec![0; 96]), &config, 1);
    assert_eq!(fitted.unwrap().data.len(), 96);
}

#[test]
fn an_image_keeps_the_size_and_bytes_of_its_frame() {
    let image = full_frame().to_rgb_image().unwrap();
    assert_eq!(image.size(), (2, 1));
    assert_eq!(image.into_bytes(), vec![1, 2, 3, 4, 5, 6]);
    // A buffer longer than the pixels need is kept whole.
    let image = frame(1, 1, vec![9, 8, 7, 6]).to_rgb_image().unwrap();
    assert_eq!(image.size(), (1, 1));
    assert_eq!(image.into_bytes(), vec![9, 8, 7, 6]);
}

#[test]
fn a_detection_below_the_confidence_floor_is_published_as_no_face() {
    let mut config = focus_mochi::vision::FocusCalculatorConfig::default();
    config.min_face_confidence = 950_001;
    let strict = FocusCalculator::new(config);
    let mut state = ProcessingLoop::new(false);
    let detections = BlazeFaceDetector::detect_simulated();
    assert_eq!(strict.calculate(detections.first(), 0), (0, false));
    let published = state.on_detections(&strict, &detections, 3_000_000, 1_000);
    assert!(!published.face_present);
    assert_eq!(published.face_confidence, 0);
    assert_eq!(published.focus_score, 0);
    assert_eq!((published.yaw, published.pitch, published.roll), (0, 0, 0));
    assert_eq!(published.timestamp_ms, 1_000);
    assert!(!state.republish(1_066).face_present);

    // At the floor the detection counts as a face.
    config.min_face_confidence = 950_000;
    let lenient = FocusCalculator::new(config);
    let published = state.on_detections(&lenient, &detections, 3_000_000, 2_000);
    assert!(published.face_present);
    assert_eq!(published.face_confidence, 950_000);
    assert_eq!(published.roll, 3_000_000);
    assert!(published.focus_score > 0);
}

#[test]
fn the_published_flag_is_the_flag_of_the_score() {
    let mut state = ProcessingLoop::new(false);
    let detections = BlazeFaceDetector::detect_simulated();
    for floor in [0, 500_000, 950_000, 950_001, 1_000_000] {
        let mut config = focus_mochi::vision::FocusCalculatorConfig::default();
        config.min_face_confidence = floor;
        let calculator = FocusCalculator::new(config);
        let (score, present) = calculator.calculate(detections.first(), 0);
        let published = state.on_detections(&calculator, &detections, 0, 5);
        assert_eq!(published.face_present, present);
        assert_eq!(published.focus_score, score);
    }
}

#[test]
fn a_failed_cycle_publishes_nothing_and_keeps_the_last_state() {
    let calculator = FocusCalculator::with_defaults();
    let mut state = ProcessingLoop::new(false);
    let published = state.on_detections(&calculator, &BlazeFaceDetector::detect_simulated(), 0, 1_000);
    assert!(state.on_detection_failed().is_none());
    let again = state.republish(2_000);
    assert_eq!(again.face_present, published.face_present);
    assert_eq!(again.focus_score, published.focus_score);
    assert_eq!(again.face_confidence, published.face_confidence);
}

fn uniform(width: u32, height: u32, color: [u8; 3]) -> Vec<u8> {
    let mut data = Vec::with_capacity(width as usize * height as usize * 3);
    for _ in 0..(width as usize * height as usize) {
        data.extend_from_slice(&color);
    }
    data
}

#[test]
fn frames_up_to_the_largest_side_are_resampled() {
    let config = CameraConfig { device_index: 0, target_fps: 10, width: 65_535, height: 1 };
    let wide = frame(65_536, 1, uniform(65_536, 1, [10, 20, 30]));
    let fitted = focus_mochi::vision::capture::fit_frame(wide, &config, 1).unwrap();
    assert_eq!(fitted.data.len(), 65_535 * 3);
    assert!(fitted.data.chunks(3).all(|p| p == [10, 20, 30]));

    let config = CameraConfig { device_index: 0, target_fps: 10, width: 65_536, height: 2 };
    let narrow = frame(3, 1, uniform(3, 1, [200, 100, 50]));
    let fitted = focus_mochi::vision::capture::fit_frame(narrow, &config, 1).unwrap();
    assert_eq!(fitted.data.len(), 65_536 * 2 * 3);
    assert!(fitted.data.chunks(3).all(|p| p == [200, 100, 50]));

    let planar = preprocess(&uniform(65_536, 1, [1, 2, 3]), 65_536, 1).unwrap();
    assert!(planar[..16384].iter().all(|&v| v == 1));
    let planar = preprocess(&uniform(1, 65_536, [1, 2, 3]), 1, 65_536).unwrap();
    assert!(planar[2 * 16384..].iter().all(|&v| v == 3));
}

#[test]
fn frames_beyond_the_largest_side_are_not_resampled() {
    let config = CameraConfig { device_index: 0, target_fps: 10, width: 10, height: 1 };
    let wide = frame(65_537, 1, uniform(65_537, 1, [10, 20, 30]));
    assert!(focus_mochi::vision::capture::fit_frame(wide, &config, 1).is_none());
    let high = frame(1, 65_537, uniform(1, 65_537, [10, 20, 30]));
    assert!(focus_mochi::vision::capture::fit_frame(high, &config, 1).is_none());

    let config = CameraConfig { device_index: 0, target_fps: 10, width: 65_537, height: 1 };
    assert!(focus_mochi::vision::capture::fit_frame(full_frame(), &config, 1).is_none());
    let config = CameraConfig { device_index: 0, target_fps: 10, width: 1, height: 65_537 };
    assert!(focus_mochi::vision::capture::fit_frame(full_frame(), &config, 1).is_none());

    for (width, height) in [(65_537u32, 1u32), (1, 65_537)] {
        match preprocess(&uniform(width, height, [1, 2, 3]), width, height) {
            Err(FaceDetectorError::ImageError(msg)) => assert_eq!(msg, "Invalid image data"),
            other => panic!("expected an image error, got {:?}", other.map(|v| v.len())),
        }
    }
}

#[test]
fn a_frame_of_the_configured_size_needs_no_resampling_whatever_its_size() {
    let config = CameraConfig { device_index: 0, target_fps: 10, width: 70_000, height: 1 };
    let data = uniform(70_000, 1, [7, 8, 9]);
    let fitted = focus_mochi::vision::capture::fit_frame(frame(70_000, 1, data.clone()), &config, 4);
    assert_eq!(fitted.unwrap().data, data);
}
