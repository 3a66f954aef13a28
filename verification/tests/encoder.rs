use win_recorder::{catalog_from, EncoderCatalog, EncoderGuid, RecorderError, VideoEncoderInfo};

fn encoder(name: &str, guid: u128, flags: u32) -> VideoEncoderInfo {
    VideoEncoderInfo { name: name.to_string(), guid: EncoderGuid(guid), flags }
}

#[test]
fn catalog_of_nothing_is_empty() {
    let catalog = EncoderCatalog::from_enumeration(Vec::new());
    assert_eq!(catalog.len(), 0);
    assert!(catalog.entries().is_empty());
    assert_eq!(catalog.get("H264 Encoder MFT"), None);
}

#[test]
fn catalog_holds_each_listed_encoder_under_its_name() {
    let listed = vec![
        encoder("NVIDIA H.264 Encoder MFT", 1, 4),
        encoder("H264 Encoder MFT", 2, 1),
        encoder("HEVCVideoExtensionEncoder", 3, 1),
    ];
    let catalog = EncoderCatalog::from_enumeration(listed.clone());
    assert_eq!(catalog.len(), 3);
    for info in &listed {
        assert_eq!(catalog.get(&info.name), Some(info));
    }
    assert_eq!(catalog.get("h264 encoder mft"), None);
    assert_eq!(catalog.get(""), None);
}

#[test]
fn catalog_keeps_the_last_of_two_encoders_with_one_name() {
    let listed = vec![
        encoder("H264 Encoder MFT", 1, 1),
        encoder("NVIDIA H.264 Encoder MFT", 2, 4),
        encoder("H264 Encoder MFT", 3, 8),
        encoder("H264 Encoder MFT", 4, 16),
    ];
    let catalog = EncoderCatalog::from_enumeration(listed);
    assert_eq!(catalog.len(), 2);
    assert_eq!(catalog.get("H264 Encoder MFT"), Some(&encoder("H264 Encoder MFT", 4, 16)));
    assert_eq!(
        catalog.get("NVIDIA H.264 Encoder MFT"),
        Some(&encoder("NVIDIA H.264 Encoder MFT", 2, 4))
    );
}

#[test]
fn catalog_entries_name_each_encoder_once() {
    let listed = vec![
        encoder("a", 1, 0),
        encoder("b", 2, 0),
        encoder("a", 3, 0),
        encoder("c", 4, 0),
        encoder("b", 5, 0),
    ];
    let catalog = EncoderCatalog::from_enumeration(listed);
    let mut names: Vec<&str> = catalog.entries().iter().map(|info| info.name.as_str()).collect();
    names.sort();
    assert_eq!(names, vec!["a", "b", "c"]);
    for info in catalog.entries() {
        assert_eq!(catalog.get(&info.name), Some(info));
    }
    assert_eq!(catalog.get("a").map(|info| info.guid), Some(EncoderGuid(3)));
    assert_eq!(catalog.get("b").map(|info| info.guid), Some(EncoderGuid(5)));
    assert_eq!(catalog.get("c").map(|info| info.guid), Some(EncoderGuid(4)));
}

#[test]
fn caller_selects_an_encoder_by_scanning_the_entries() {
    let listed = vec![
        encoder("HEVCVideoExtensionEncoder", 1, 1),
        encoder("H264 Encoder MFT", 2, 1),
    ];
    let catalog = EncoderCatalog::from_enumeration(listed);
    let chosen = catalog.entries().iter().find(|info| info.name.contains("264"));
    assert_eq!(chosen.map(|info| info.guid), Some(EncoderGuid(2)));
    let missing = catalog.entries().iter().find(|info| info.name.contains("AV1"));
    assert_eq!(missing, None);
}

#[test]
fn catalog_from_reports_a_failed_enumeration() {
    let failed = catalog_from(Err("MFTEnumEx failed".to_string()));
    assert_eq!(
        failed.err(),
        Some(RecorderError::Generic("Failed to get encoders: MFTEnumEx failed".to_string()))
    );
    let blank = catalog_from(Err(String::new()));
    assert_eq!(blank.err(), Some(RecorderError::Generic("Failed to get encoders: ".to_string())));
}

#[test]
fn catalog_from_makes_the_catalog_of_an_enumeration() {
    let made = catalog_from(Ok(vec![encoder("a", 1, 0), encoder("a", 2, 0)])).unwrap();
    assert_eq!(made.len(), 1);
    assert_eq!(made.get("a"), Some(&encoder("a", 2, 0)));
}
