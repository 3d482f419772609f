use focus_mochi::vision::{CameraConfig, CapturedFrame};

#[test]
fn test_camera_config_default() {
    let config = CameraConfig::default();
    assert_eq!(config.device_index, 0);
    assert_eq!(config.target_fps, 10);
    assert_eq!(config.width, 320);
    assert_eq!(config.height, 240);
}

#[test]
fn test_captured_frame_empty() {
    let frame = CapturedFrame::empty();
    assert!(frame.is_empty());
    assert!(frame.to_rgb_image().is_none());
}
