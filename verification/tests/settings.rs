use blive::settings::backup_file_name;
use blive::settings::{
    GlobalSettings, Quality, RoomSettings, SettingsError, SettingsMigrator, SettingsVersion, Strategy,
    StreamCodec, VersionedSettings, VideoContainer, DEFAULT_RECORD_NAME, DEFAULT_THEME,
};

const DEFAULT_RECORD_DIR: &str = "/home/tester/Videos/blive";

fn default_settings() -> GlobalSettings {
    GlobalSettings::default_with_record_dir(DEFAULT_RECORD_DIR.to_string())
}

fn room(room_id: u64, record_name: &str) -> RoomSettings {
    RoomSettings {
        room_id,
        record_dir: None,
        strategy: None,
        quality: None,
        format: None,
        codec: None,
        record_name: record_name.to_string(),
    }
}

#[test]
fn test_migrate_v0_to_v1() {
    // Settings written without a version read only as old-style settings.
    let v0_settings = GlobalSettings {
        strategy: Strategy::LowCost,
        theme_name: "".into(),
        quality: Quality::Original,
        format: VideoContainer::FMP4,
        codec: StreamCodec::HEVC,
        record_dir: "".to_string(),
        rooms: vec![RoomSettings { room_id: 12345, ..Default::default() }],
    };

    let migrated_settings = SettingsMigrator::migrate(None, Some(v0_settings), DEFAULT_RECORD_DIR).unwrap();

    assert_eq!(migrated_settings.theme_name, DEFAULT_THEME);
    assert_eq!(migrated_settings.record_dir, DEFAULT_RECORD_DIR);
    assert_eq!(migrated_settings.rooms[0].record_name, DEFAULT_RECORD_NAME);
}

#[test]
fn test_migrate_v1_to_v1() {
    let v1_settings = GlobalSettings {
        strategy: Strategy::PriorityConfig,
        theme_name: "Test Theme".into(),
        quality: Quality::BlueRay,
        format: VideoContainer::FLV,
        codec: StreamCodec::AVC,
        record_dir: "/test/path".to_string(),
        rooms: vec![room(67890, "test_name")],
    };

    let versioned_settings = VersionedSettings { version: SettingsVersion::V1, data: v1_settings };

    let migrated_settings = SettingsMigrator::migrate(Some(versioned_settings), None, DEFAULT_RECORD_DIR).unwrap();

    assert_eq!(migrated_settings.theme_name, "Test Theme");
    assert_eq!(migrated_settings.record_dir, "/test/path");
    assert_eq!(migrated_settings.rooms[0].record_name, "test_name");
}

#[test]
fn test_save_with_version() {
    let settings = default_settings();
    let versioned_settings = SettingsMigrator::save_with_version(&settings);

    assert_eq!(versioned_settings.version, SettingsVersion::V1);
}

#[test]
fn test_get_settings_version() {
    // A file without a version reads only as old-style settings.
    assert_eq!(SettingsMigrator::get_settings_version(None, true).unwrap(), SettingsVersion::V0);

    // A versioned file reads as versioned settings first.
    assert_eq!(
        SettingsMigrator::get_settings_version(Some(SettingsVersion::V1), true).unwrap(),
        SettingsVersion::V1
    );
}

#[test]
fn test_validate_settings() {
    let valid_settings = default_settings();
    assert!(SettingsMigrator::validate_settings(&valid_settings).is_ok());

    let invalid_settings = GlobalSettings { theme_name: "".into(), ..default_settings() };
    assert!(SettingsMigrator::validate_settings(&invalid_settings).is_err());

    let invalid_settings = GlobalSettings { record_dir: "".to_string(), ..default_settings() };
    assert!(SettingsMigrator::validate_settings(&invalid_settings).is_err());

    let mut invalid_settings = default_settings();
    invalid_settings.rooms.push(room(12345, ""));
    assert!(SettingsMigrator::validate_settings(&invalid_settings).is_err());
}

#[test]
fn unreadable_settings_file_is_refused() {
    let r = SettingsMigrator::migrate(None, None, DEFAULT_RECORD_DIR);
    assert!(matches!(r, Err(SettingsError::UnrecognizedFormat)));
    let r = SettingsMigrator::get_settings_version(None, false);
    assert!(matches!(r, Err(SettingsError::UnrecognizedFormat)));
}

#[test]
fn validation_errors_name_the_problem() {
    let s = GlobalSettings { theme_name: "".into(), ..default_settings() };
    assert!(matches!(SettingsMigrator::validate_settings(&s), Err(SettingsError::EmptyThemeName)));
    let s = GlobalSettings { record_dir: "".into(), ..default_settings() };
    assert!(matches!(SettingsMigrator::validate_settings(&s), Err(SettingsError::EmptyRecordDir)));
    let mut s = default_settings();
    s.rooms.push(room(1, "a"));
    s.rooms.push(room(2, ""));
    s.rooms.push(room(3, ""));
    match SettingsMigrator::validate_settings(&s) {
        Err(SettingsError::EmptyRecordName { room_id }) => assert_eq!(room_id, 2),
        other => panic!("unexpected {:?}", other),
    }
}

#[test]
fn migrated_old_settings_validate_and_keep_choices() {
    let v0 = GlobalSettings {
        strategy: Strategy::PriorityConfig,
        theme_name: "".into(),
        quality: Quality::HD,
        format: VideoContainer::TS,
        codec: StreamCodec::AVC,
        record_dir: "".into(),
        rooms: vec![room(5, ""), room(6, "keep")],
    };
    let m = SettingsMigrator::migrate(None, Some(v0), DEFAULT_RECORD_DIR).unwrap();
    assert!(SettingsMigrator::validate_settings(&m).is_ok());
    assert_eq!(m.strategy, Strategy::PriorityConfig);
    assert_eq!(m.quality, Quality::HD);
    assert_eq!(m.format, VideoContainer::TS);
    assert_eq!(m.codec, StreamCodec::AVC);
    assert_eq!(m.rooms[0].record_name, DEFAULT_RECORD_NAME);
    assert_eq!(m.rooms[1].record_name, "keep");
}

#[test]
fn migrating_valid_old_settings_changes_nothing() {
    let mut v0 = default_settings();
    v0.theme_name = "Dark".into();
    v0.rooms.push(room(9, "name"));
    let m = SettingsMigrator::migrate(None, Some(v0), "/elsewhere").unwrap();
    assert_eq!(m.theme_name, "Dark");
    assert_eq!(m.record_dir, DEFAULT_RECORD_DIR);
    assert_eq!(m.rooms.len(), 1);
    assert_eq!(m.rooms[0].record_name, "name");
}

#[test]
fn migrate_v0_to_v1_fills_empty_fields() {
    let mut s = default_settings();
    s.theme_name = "".into();
    s.record_dir = "".into();
    let m = SettingsMigrator::migrate_v0_to_v1(s, "/x/y");
    assert_eq!(m.theme_name, DEFAULT_THEME);
    assert_eq!(m.record_dir, "/x/y");
}

#[test]
fn version_numbers_and_sum() {
    assert_eq!(SettingsVersion::V0.number(), 0);
    assert_eq!(SettingsVersion::V1.number(), 1);
    assert_eq!(SettingsVersion::from_number(0), SettingsVersion::V0);
    assert_eq!(SettingsVersion::from_number(1), SettingsVersion::V1);
    assert_eq!(SettingsVersion::from_number(7), SettingsVersion::V1);
    assert_eq!(SettingsVersion::V0.add(SettingsVersion::V1), SettingsVersion::V1);
    assert_eq!(SettingsVersion::V0.add(SettingsVersion::V0), SettingsVersion::V0);
    let mut v = SettingsVersion::V0;
    v.add_assign(SettingsVersion::V1);
    assert_eq!(v, SettingsVersion::V1);
    assert!(SettingsVersion::V0.is_older_than(&SettingsVersion::V1));
    assert!(!SettingsVersion::V1.is_older_than(&SettingsVersion::V1));
}

#[test]
fn labels_read_back() {
    for q in [
        Quality::Dolby,
        Quality::UHD4K,
        Quality::Original,
        Quality::BlueRay,
        Quality::UltraHD,
        Quality::HD,
        Quality::Smooth,
    ] {
        assert_eq!(Quality::from_label(q.label()), Some(q));
    }
    for c in [VideoContainer::FLV, VideoContainer::FMP4, VideoContainer::TS] {
        assert_eq!(VideoContainer::from_label(c.label()), Some(c));
    }
    for c in [StreamCodec::AVC, StreamCodec::HEVC] {
        assert_eq!(StreamCodec::from_label(c.label()), Some(c));
    }
    for s in [Strategy::LowCost, Strategy::PriorityConfig] {
        assert_eq!(Strategy::from_label(s.label()), Some(s));
    }
    assert_eq!(Quality::from_label("no such"), None);
}

#[test]
fn quality_codes_and_extensions() {
    assert_eq!(Quality::Dolby.to_quality(), 30000);
    assert_eq!(Quality::UHD4K.to_quality(), 20000);
    assert_eq!(Quality::Original.to_quality(), 10000);
    assert_eq!(Quality::BlueRay.to_quality(), 400);
    assert_eq!(Quality::UltraHD.to_quality(), 250);
    assert_eq!(Quality::HD.to_quality(), 150);
    assert_eq!(Quality::Smooth.to_quality(), 80);
    assert_eq!(VideoContainer::FLV.ext(), "flv");
    assert_eq!(VideoContainer::FMP4.ext(), "mkv");
    assert_eq!(VideoContainer::TS.ext(), "mkv");
}

#[test]
fn new_room_settings_leave_choices_to_global() {
    let r = RoomSettings::new(42);
    assert_eq!(r.room_id, 42);
    assert!(r.record_dir.is_none() && r.strategy.is_none() && r.quality.is_none());
    assert!(r.format.is_none() && r.codec.is_none());
    assert_eq!(r.record_name, DEFAULT_RECORD_NAME);
}

#[test]
fn merge_global_fills_unset_choices() {
    let mut g = default_settings();
    g.quality = Quality::HD;
    g.codec = StreamCodec::AVC;
    let mut r = RoomSettings::new(7);
    r.format = Some(VideoContainer::TS);
    r.record_dir = Some("".into());
    let m = r.merge_global(&g);
    assert_eq!(m.quality, Some(Quality::HD));
    assert_eq!(m.codec, Some(StreamCodec::AVC));
    assert_eq!(m.format, Some(VideoContainer::TS));
    assert_eq!(m.strategy, Some(Strategy::LowCost));
    assert_eq!(m.record_dir.as_deref(), Some(DEFAULT_RECORD_DIR));
    // Merging twice gives the same settings.
    let mut m2 = m.clone();
    let again = m2.merge_global(&g);
    assert_eq!(again.quality, m.quality);
    assert_eq!(again.record_dir, m.record_dir);
    let mut own = RoomSettings::new(8);
    own.record_dir = Some("/own".into());
    assert_eq!(own.merge_global(&g).record_dir.as_deref(), Some("/own"));
}

#[test]
fn stored_overrides_keep_only_differences() {
    let mut g = default_settings();
    g.rooms.push(RoomSettings::new(1));
    g.rooms.push(RoomSettings::new(2));
    let mut edited = RoomSettings::new(1);
    edited.quality = Some(Quality::Original); // same as global
    edited.codec = Some(StreamCodec::AVC); // differs
    edited.format = None;
    g.store_room_overrides(&edited);
    assert_eq!(g.rooms[0].quality, None);
    assert_eq!(g.rooms[0].codec, Some(StreamCodec::AVC));
    assert_eq!(g.rooms[0].format, None);
    assert_eq!(g.rooms[1].codec, None);
}

#[test]
fn apply_selection_parses_labels() {
    let mut g = default_settings();
    g.apply_selection("/rec", Some(Quality::HD.label()), Some("??"), None);
    assert_eq!(g.record_dir, "/rec");
    assert_eq!(g.quality, Quality::HD);
    assert_eq!(g.format, VideoContainer::FMP4);
    assert_eq!(g.codec, StreamCodec::HEVC);
}

#[test]
fn settings_error_messages() {
    assert!(!SettingsError::UnrecognizedFormat.message().is_empty());
    let m = SettingsError::EmptyRecordName { room_id: 12 }.message();
    assert!(m.contains("12"));
}

#[test]
fn loaded_settings_fill_theme_or_fall_back() {
    let mut s = default_settings();
    s.theme_name = "".into();
    s.quality = Quality::HD;
    let loaded = GlobalSettings::from_loaded(Some(Ok(s)), "/d".into());
    assert_eq!(loaded.theme_name, DEFAULT_THEME);
    assert_eq!(loaded.quality, Quality::HD);
    let loaded = GlobalSettings::from_loaded(Some(Err(SettingsError::UnrecognizedFormat)), "/d".into());
    assert_eq!(loaded.record_dir, "/d");
    assert_eq!(loaded.theme_name, DEFAULT_THEME);
    let loaded = GlobalSettings::from_loaded(None, "/e".into());
    assert_eq!(loaded.record_dir, "/e");
    assert!(loaded.rooms.is_empty());
}

#[test]
fn saved_settings_load_back() {
    let mut s = default_settings();
    s.theme_name = "Mine".into();
    s.rooms.push(room(4, "n"));
    let saved = SettingsMigrator::save_with_version(&s);
    let migrated = SettingsMigrator::migrate(Some(saved), None, "/other").unwrap();
    let loaded = GlobalSettings::from_loaded(Some(Ok(migrated)), "/other".into());
    assert_eq!(loaded.theme_name, "Mine");
    assert_eq!(loaded.record_dir, DEFAULT_RECORD_DIR);
    assert_eq!(loaded.rooms.len(), 1);
    assert_eq!(loaded.rooms[0].record_name, "n");
}

#[test]
fn backup_names() {
    assert_eq!(backup_file_name("a/settings.json", "20240101_000000"), "a/settings.json.backup.20240101_000000");
}
