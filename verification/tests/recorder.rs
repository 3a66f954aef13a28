use std::cell::Cell;
use win_recorder::{
    get_window_by_string, EncoderGuid, Recorder, RecorderConfig, RecorderError, VideoEncoderInfo,
    WindowHandle, WindowSnapshot,
};

struct Engine {
    target: WindowHandle,
    bitrate: u32,
}

fn window(handle: isize, title: &str) -> WindowSnapshot {
    WindowSnapshot {
        handle: WindowHandle(handle),
        visible: true,
        title: title.encode_utf16().collect(),
    }
}

fn init_engine(registry: &[WindowSnapshot], config: &RecorderConfig, name: &str) -> Result<Engine, String> {
    match get_window_by_string(registry, name) {
        Some(target) => Ok(Engine { target, bitrate: config.video_bitrate() }),
        None => Err(format!("No window found for process: {}", name)),
    }
}

fn recorder() -> Recorder<Engine> {
    Recorder::new(Recorder::builder().video_bitrate(8_000_000).build()).unwrap()
}

#[test]
fn new_recorder_is_unbound_and_idle() {
    let recorder = recorder();
    assert!(!recorder.is_recording());
    assert_eq!(recorder.process_name(), None);
    assert_eq!(recorder.config().video_bitrate(), 8_000_000);
    assert!(!recorder.config().capture_audio());
}

#[test]
fn with_process_name_binds_and_rebinds() {
    let recorder = recorder().with_process_name("Notepad");
    assert_eq!(recorder.process_name().map(|name| name.as_str()), Some("Notepad"));
    assert!(!recorder.is_recording());
    let recorder = recorder.with_process_name("Calculator");
    assert_eq!(recorder.process_name().map(|name| name.as_str()), Some("Calculator"));
    assert_eq!(recorder.config().video_bitrate(), 8_000_000);
}

#[test]
fn start_without_target_fails_with_no_process_specified() {
    let mut recorder = recorder();
    let called = Cell::new(false);
    let started = recorder.start_recording(|_config, _name| {
        called.set(true);
        Ok(Engine { target: WindowHandle(1), bitrate: 0 })
    });
    assert_eq!(started, Err(RecorderError::NoProcessSpecified));
    assert!(!called.get());
    assert!(!recorder.is_recording());
    assert_eq!(recorder.start_target().err(), Some(RecorderError::NoProcessSpecified));
}

#[test]
fn stop_without_engine_fails_with_no_recorder_bound() {
    let mut recorder = recorder().with_process_name("Notepad");
    let called = Cell::new(false);
    let stopped = recorder.stop_recording(|_engine| {
        called.set(true);
        Ok(())
    });
    assert_eq!(stopped, Err(RecorderError::NoRecorderBound));
    assert!(!called.get());
    assert!(!recorder.is_recording());
    assert_eq!(recorder.take_engine().err(), Some(RecorderError::NoRecorderBound));
}

#[test]
fn start_hands_config_and_target_to_the_engine() {
    let registry = vec![window(0x20, "Program Manager"), window(0x30, "Untitled - Notepad")];
    let mut recorder = recorder().with_process_name("Notepad");
    let started = recorder.start_recording(|config, name| {
        assert_eq!(name, "Notepad");
        assert_eq!(config.video_bitrate(), 8_000_000);
        init_engine(&registry, config, name)
    });
    assert_eq!(started, Ok(()));
    assert!(recorder.is_recording());
    let engine = recorder.take_engine().ok().unwrap();
    assert_eq!(engine.target, WindowHandle(0x30));
    assert_eq!(engine.bitrate, 8_000_000);
    assert!(!recorder.is_recording());
}

#[test]
fn start_for_missing_window_fails_and_can_be_repeated() {
    let mut registry = vec![window(0x20, "Program Manager")];
    let mut recorder = recorder().with_process_name("Notepad");
    let started = recorder.start_recording(|config, name| init_engine(&registry, config, name));
    assert_eq!(
        started,
        Err(RecorderError::FailedToStart("No window found for process: Notepad".to_string()))
    );
    assert!(!recorder.is_recording());
    assert_eq!(recorder.process_name().map(|name| name.as_str()), Some("Notepad"));
    assert_eq!(recorder.start_target().ok().map(|name| name.as_str()), Some("Notepad"));

    registry.push(window(0x30, "Untitled - Notepad"));
    let started = recorder.start_recording(|config, name| init_engine(&registry, config, name));
    assert_eq!(started, Ok(()));
    assert!(recorder.is_recording());
}

#[test]
fn second_start_fails_and_keeps_the_first_engine() {
    let mut recorder = recorder().with_process_name("Notepad");
    let first = recorder.start_recording(|_config, _name| Ok(Engine { target: WindowHandle(1), bitrate: 1 }));
    assert_eq!(first, Ok(()));
    let called = Cell::new(false);
    let second = recorder.start_recording(|_config, _name| {
        called.set(true);
        Ok(Engine { target: WindowHandle(2), bitrate: 2 })
    });
    assert_eq!(second, Err(RecorderError::AlreadyRecording));
    assert!(!called.get());
    assert!(recorder.is_recording());
    assert_eq!(recorder.start_target().err(), Some(RecorderError::AlreadyRecording));
    let mut stopped_target = None;
    let stopped = recorder.stop_recording(|engine| {
        stopped_target = Some(engine.target);
        Ok(())
    });
    assert_eq!(stopped, Ok(()));
    assert_eq!(stopped_target, Some(WindowHandle(1)));
}

#[test]
fn stop_returns_what_the_engine_reports_and_discards_it() {
    let mut recorder = recorder().with_process_name("Notepad");
    assert_eq!(recorder.start_recording(|_config, _name| Ok(Engine { target: WindowHandle(1), bitrate: 1 })), Ok(()));
    let stopped = recorder.stop_recording(|_engine| Err(RecorderError::Generic("flush failed".to_string())));
    assert_eq!(stopped, Err(RecorderError::Generic("flush failed".to_string())));
    assert!(!recorder.is_recording());
    assert_eq!(recorder.stop_recording(|_engine| Ok(())), Err(RecorderError::NoRecorderBound));
    assert_eq!(recorder.start_recording(|_config, _name| Ok(Engine { target: WindowHandle(2), bitrate: 2 })), Ok(()));
    assert!(recorder.is_recording());
}

#[test]
fn session_can_record_again_with_a_new_target() {
    let registry = vec![window(0x30, "Untitled - Notepad"), window(0x40, "Calculator")];
    let mut recorder = recorder().with_process_name("Notepad");
    assert_eq!(recorder.start_recording(|config, name| init_engine(&registry, config, name)), Ok(()));
    assert_eq!(recorder.take_engine().ok().map(|engine| engine.target), Some(WindowHandle(0x30)));
    let mut recorder = recorder.with_process_name("calc");
    assert_eq!(recorder.start_recording(|config, name| init_engine(&registry, config, name)), Ok(()));
    assert_eq!(recorder.take_engine().ok().map(|engine| engine.target), Some(WindowHandle(0x40)));
}

#[test]
fn engine_constructed_applies_the_outcome() {
    let mut unbound: Recorder<u32> = Recorder::new(Recorder::builder().build()).unwrap();
    assert_eq!(unbound.engine_constructed(Ok(7)), Err(RecorderError::NoProcessSpecified));
    assert!(!unbound.is_recording());

    let mut recorder = unbound.with_process_name("Notepad");
    assert_eq!(
        recorder.engine_constructed(Err("encoder rejected".to_string())),
        Err(RecorderError::FailedToStart("encoder rejected".to_string()))
    );
    assert!(!recorder.is_recording());
    assert_eq!(recorder.engine_constructed(Ok(7)), Ok(()));
    assert!(recorder.is_recording());
    assert_eq!(recorder.engine_constructed(Ok(8)), Err(RecorderError::AlreadyRecording));
    assert_eq!(recorder.take_engine(), Ok(7));
    assert_eq!(recorder.take_engine(), Err(RecorderError::NoRecorderBound));
}

#[test]
fn encoders_are_not_listed_when_initialization_fails() {
    let recorder = recorder();
    let listed = Cell::new(false);
    let catalog = recorder.get_available_video_encoders(
        || Err(RecorderError::Generic("Media Foundation is not available".to_string())),
        || {
            listed.set(true);
            Ok(Vec::new())
        },
    );
    assert_eq!(
        catalog.err(),
        Some(RecorderError::Generic("Media Foundation is not available".to_string()))
    );
    assert!(!listed.get());
}

#[test]
fn failed_enumeration_is_reported_as_generic() {
    let recorder = recorder();
    let catalog =
        recorder.get_available_video_encoders(|| Ok(()), || Err("0x80070005".to_string()));
    assert_eq!(
        catalog.err(),
        Some(RecorderError::Generic("Failed to get encoders: 0x80070005".to_string()))
    );
}

#[test]
fn available_encoders_come_as_a_catalog() {
    let recorder = recorder();
    let catalog = recorder
        .get_available_video_encoders(
            || Ok(()),
            || {
                Ok(vec![
                    VideoEncoderInfo { name: "H264 Encoder MFT".to_string(), guid: EncoderGuid(1), flags: 1 },
                    VideoEncoderInfo { name: "H265 Encoder MFT".to_string(), guid: EncoderGuid(2), flags: 1 },
                    VideoEncoderInfo { name: "H264 Encoder MFT".to_string(), guid: EncoderGuid(3), flags: 4 },
                ])
            },
        )
        .unwrap();
    assert_eq!(catalog.len(), 2);
    assert_eq!(catalog.get("H264 Encoder MFT").map(|info| info.guid), Some(EncoderGuid(3)));
    assert_eq!(catalog.get("H265 Encoder MFT").map(|info| info.guid), Some(EncoderGuid(2)));
    let config = Recorder::builder().encoder(catalog.get("H264 Encoder MFT").map(|info| info.guid)).build();
    assert_eq!(config.encoder(), Some(EncoderGuid(3)));
}
