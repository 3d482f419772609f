use focus_mochi::vision::VisionProcessorConfig;

#[test]
fn test_vision_processor_config_default() {
    let config = VisionProcessorConfig::default();
    assert!(!config.detect_every_frame);
    assert!(config.model_path.contains("blazeface"));
}
