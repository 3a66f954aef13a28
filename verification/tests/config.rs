use win_recorder::{EncoderGuid, Recorder, RecorderConfig, RecorderConfigBuilder};

#[test]
fn config_without_options_has_defaults() {
    let config = Recorder::builder().build();
    assert!(!config.capture_audio());
    assert!(!config.capture_microphone());
    assert!(!config.debug_mode());
    assert_eq!(config.fps_num(), 30);
    assert_eq!(config.fps_den(), 1);
    assert_eq!(config.input_width(), 1920);
    assert_eq!(config.input_height(), 1080);
    assert_eq!(config.output_width(), 1920);
    assert_eq!(config.output_height(), 1080);
    assert_eq!(config.output_path(), "output.mp4");
    assert_eq!(config.video_bitrate(), 5_000_000);
    assert_eq!(config.encoder(), None);
}

#[test]
fn config_round_trips_explicit_values() {
    let encoder = EncoderGuid(0x6ca50344_051a_4ded_9779_a43305165e35);
    let config = Recorder::builder()
        .fps(30, 1)
        .input_dimensions(2560, 1440)
        .output_dimensions(1920, 1080)
        .capture_audio(true)
        .capture_microphone(true)
        .debug_mode(true)
        .output_path("./output.mp4")
        .video_bitrate(12000000)
        .encoder(Some(encoder))
        .build();
    assert_eq!(config.fps_num(), 30);
    assert_eq!(config.fps_den(), 1);
    assert_eq!(config.input_width(), 2560);
    assert_eq!(config.input_height(), 1440);
    assert_eq!(config.output_width(), 1920);
    assert_eq!(config.output_height(), 1080);
    assert!(config.capture_audio());
    assert!(config.capture_microphone());
    assert!(config.debug_mode());
    assert_eq!(config.output_path(), "./output.mp4");
    assert_eq!(config.video_bitrate(), 12000000);
    assert_eq!(config.encoder(), Some(encoder));
}

#[test]
fn config_keeps_the_value_given_last() {
    let config = RecorderConfig::builder()
        .fps(24, 1)
        .fps(30000, 1001)
        .capture_audio(true)
        .capture_audio(false)
        .encoder(Some(EncoderGuid(1)))
        .encoder(None)
        .output_path("a.mp4")
        .output_path("b.mp4")
        .build();
    assert_eq!((config.fps_num(), config.fps_den()), (30000, 1001));
    assert!(!config.capture_audio());
    assert_eq!(config.encoder(), None);
    assert_eq!(config.output_path(), "b.mp4");
}

#[test]
fn config_setting_one_option_leaves_the_others_at_default() {
    let config = RecorderConfigBuilder::new().capture_microphone(true).build();
    assert!(config.capture_microphone());
    assert!(!config.capture_audio());
    assert!(!config.debug_mode());
    assert_eq!(config.video_bitrate(), 5_000_000);
    let config = RecorderConfigBuilder::new().video_bitrate(1).build();
    assert_eq!(config.video_bitrate(), 1);
    assert!(!config.capture_microphone());
    assert_eq!((config.input_width(), config.input_height()), (1920, 1080));
}

#[test]
fn build_checks_nothing() {
    let config = Recorder::builder()
        .fps(0, 0)
        .input_dimensions(0, 0)
        .output_dimensions(0, u32::MAX)
        .video_bitrate(0)
        .output_path("")
        .build();
    assert_eq!((config.fps_num(), config.fps_den()), (0, 0));
    assert_eq!((config.input_width(), config.input_height()), (0, 0));
    assert_eq!((config.output_width(), config.output_height()), (0, u32::MAX));
    assert_eq!(config.video_bitrate(), 0);
    assert_eq!(config.output_path(), "");
}

#[test]
fn default_config_is_valid() {
    assert!(Recorder::builder().build().is_valid());
    assert!(Recorder::builder().fps(30000, 1001).output_dimensions(1, 1).build().is_valid());
}

#[test]
fn config_with_zero_dimension_or_denominator_is_not_valid() {
    assert!(!Recorder::builder().fps(30, 0).build().is_valid());
    assert!(!Recorder::builder().input_dimensions(0, 1080).build().is_valid());
    assert!(!Recorder::builder().input_dimensions(1920, 0).build().is_valid());
    assert!(!Recorder::builder().output_dimensions(0, 1080).build().is_valid());
    assert!(!Recorder::builder().output_dimensions(1920, 0).build().is_valid());
    assert!(Recorder::builder().fps(0, 1).video_bitrate(0).build().is_valid());
}
