use stella_record::settings::{
    archive_limit_mb_to_bytes, build_management_settings, bytes_to_archive_limit_mb,
    create_key_error, get_startup_import_settings, load_polaris_setting, load_stellarecord_setting,
    registry_write_error, save_management_settings, save_polaris_setting,
    save_stellarecord_setting, startup_import_allowed, PolarisRegistryValues, PolarisSetting,
    RegistryWrite, SettingsAction, SettingsTransaction, StartupImportPreference,
    StellaRecordRegistryValues, StellaRecordSetting, DEFAULT_CAPACITY, MAX_ARCHIVE_LIMIT_MB,
    ONE_MB_BYTES,
};

#[test]
fn bytes_to_mb_rounds_to_nearest() {
    assert_eq!(bytes_to_archive_limit_mb(300 * ONE_MB_BYTES), 300);
    assert_eq!(
        bytes_to_archive_limit_mb(300 * ONE_MB_BYTES + ONE_MB_BYTES / 2),
        301
    );
    assert_eq!(
        bytes_to_archive_limit_mb(300 * ONE_MB_BYTES + ONE_MB_BYTES / 2 - 1),
        300
    );
}

#[test]
fn bytes_to_mb_minimum_one() {
    assert_eq!(bytes_to_archive_limit_mb(0), 1);
    assert_eq!(bytes_to_archive_limit_mb(1), 1);
}

#[test]
fn bytes_to_mb_clamps_corrupt_oversized_value() {
    assert_eq!(bytes_to_archive_limit_mb(u64::MAX), MAX_ARCHIVE_LIMIT_MB);
}

#[test]
fn mb_to_bytes_basic() {
    assert_eq!(archive_limit_mb_to_bytes(300), Ok(300 * ONE_MB_BYTES));
    assert_eq!(archive_limit_mb_to_bytes(1), Ok(ONE_MB_BYTES));
}

#[test]
fn mb_to_bytes_rejects_out_of_range_values() {
    assert!(archive_limit_mb_to_bytes(0).is_err());
    assert!(archive_limit_mb_to_bytes(MAX_ARCHIVE_LIMIT_MB + 1).is_err());
    assert!(archive_limit_mb_to_bytes(u64::MAX).is_err());
}

#[test]
fn mb_conversion_roundtrip() {
    for mb in [1u64, 300, 2048, MAX_ARCHIVE_LIMIT_MB] {
        assert_eq!(
            archive_limit_mb_to_bytes(mb).map(bytes_to_archive_limit_mb),
            Ok(mb)
        );
    }
}

#[test]
fn persist_settings_restores_original_values_after_failure() {
    let original_stella = StellaRecordSetting {
        enable_startup: false,
        ..Default::default()
    };
    let next_stella = StellaRecordSetting {
        enable_startup: true,
        startup_preference_set: true,
        ..Default::default()
    };
    let original_polaris = PolarisSetting {
        capacity_threshold_bytes: 300 * ONE_MB_BYTES,
        ..Default::default()
    };
    let next_polaris = PolarisSetting {
        capacity_threshold_bytes: 600 * ONE_MB_BYTES,
        ..Default::default()
    };

    let mut calls: Vec<String> = Vec::new();
    let mut startup_calls = 0;
    let (mut tx, mut action) = SettingsTransaction::persist_management_settings(
        &original_stella,
        &next_stella,
        &original_polaris,
        &next_polaris,
    );
    let result = loop {
        action = match action {
            SettingsAction::SaveStella(setting) => {
                calls.push(format!("stella:{}", setting.enable_startup));
                tx.advance(Ok(()))
            }
            SettingsAction::SetStartup(enabled) => {
                calls.push(format!("startup:{enabled}"));
                startup_calls += 1;
                if startup_calls == 1 {
                    tx.advance(Err("スタートアップ保存失敗".to_string()))
                } else {
                    tx.advance(Ok(()))
                }
            }
            SettingsAction::SavePolaris(setting) => {
                calls.push(format!(
                    "polaris:{}",
                    setting.capacity_threshold_bytes / ONE_MB_BYTES
                ));
                tx.advance(Ok(()))
            }
            SettingsAction::Finish(result) => break result,
        };
    };

    assert_eq!(result, Err("スタートアップ保存失敗".to_string()));
    assert_eq!(
        calls,
        [
            "polaris:600",
            "startup:true",
            "stella:false",
            "startup:false",
            "polaris:300"
        ]
    );
}

/// Drives a save with the given outcomes, in order, and records the work.
fn drive(
    tx_action: (SettingsTransaction, SettingsAction),
    outcomes: &[Result<(), String>],
) -> (Vec<String>, Result<(), String>) {
    let (mut tx, mut action) = tx_action;
    let mut calls = Vec::new();
    let mut i = 0;
    loop {
        let label = match &action {
            SettingsAction::SavePolaris(p) => format!("polaris:{}", p.capacity_threshold_bytes),
            SettingsAction::SetStartup(b) => format!("startup:{b}"),
            SettingsAction::SaveStella(s) => format!("stella:{}", s.enable_startup),
            SettingsAction::Finish(r) => return (calls, r.clone()),
        };
        calls.push(label);
        let o = outcomes[i].clone();
        i += 1;
        action = tx.advance(o);
    }
}

#[test]
fn persist_reports_restore_failures_too() {
    let stella = StellaRecordSetting::default();
    let polaris = PolarisSetting::default();
    let started = save_management_settings(&stella, &polaris, true, 600).unwrap();
    let (calls, result) = drive(
        started,
        &[
            Err("A".to_string()),
            Err("B".to_string()),
            Ok(()),
            Err("C".to_string()),
        ],
    );
    assert_eq!(
        calls,
        ["polaris:629145600", "stella:false", "startup:false", "polaris:314572800"]
    );
    assert_eq!(
        result,
        Err("A。設定の復元にも失敗しました: B / C".to_string())
    );
}

#[test]
fn persist_success_writes_new_values_in_order() {
    let stella = StellaRecordSetting::default();
    let polaris = PolarisSetting::default();
    let started = save_management_settings(&stella, &polaris, true, 1).unwrap();
    let (calls, result) = drive(started, &[Ok(()), Ok(()), Ok(())]);
    assert_eq!(calls, ["polaris:1048576", "startup:true", "stella:true"]);
    assert_eq!(result, Ok(()));
}

#[test]
fn save_rejects_threshold_before_anything() {
    let stella = StellaRecordSetting::default();
    let polaris = PolarisSetting::default();
    match save_management_settings(&stella, &polaris, true, 0) {
        Err(e) => assert_eq!(
            e,
            "警告ラインは 1MB～10,485,760MB (10TB) の整数で指定してください"
        ),
        Ok(_) => panic!("a zero threshold must be refused"),
    }
}

#[test]
fn build_management_merges_both_sources() {
    let stella = StellaRecordSetting {
        enable_startup: true,
        startup_preference_set: true,
        ..Default::default()
    };
    let polaris = PolarisSetting {
        capacity_threshold_bytes: 300 * ONE_MB_BYTES,
        ..Default::default()
    };

    let merged = build_management_settings(&stella, &polaris);
    assert!(merged.startup_enabled);
    assert!(merged.startup_preference_set);
    assert_eq!(merged.archive_limit_mb, 300);
}

#[test]
fn build_management_defaults() {
    let merged = build_management_settings(
        &StellaRecordSetting::default(),
        &PolarisSetting::default(),
    );
    assert!(!merged.startup_enabled);
    assert!(!merged.startup_preference_set);
    assert_eq!(merged.archive_limit_mb, 300);
}

#[test]
fn effective_archive_dir_uses_explicit_path() {
    let setting = StellaRecordSetting {
        archive_path: r"F:\planetes-atelier\software\AppTest\archive".to_string(),
        ..Default::default()
    };
    assert_eq!(
        setting.get_effective_archive_dir(|| None),
        Some(r"F:\planetes-atelier\software\AppTest\archive".to_string())
    );
}

#[test]
fn effective_db_path_uses_explicit_path() {
    let setting = StellaRecordSetting {
        db_path: r"F:\planetes-atelier\software\AppTest\db\test.db".to_string(),
        ..Default::default()
    };
    assert_eq!(
        setting.get_effective_db_path(|| None),
        Some(r"F:\planetes-atelier\software\AppTest\db\test.db".to_string())
    );
}

#[test]
fn effective_paths_fall_back_only_when_empty() {
    let setting = StellaRecordSetting::default();
    assert_eq!(
        setting.get_effective_archive_dir(|| Some("D".to_string())),
        Some("D".to_string())
    );
    assert_eq!(setting.get_effective_db_path(|| None), None);
    let explicit = StellaRecordSetting {
        archive_path: "X".to_string(),
        ..Default::default()
    };
    assert_eq!(
        explicit.get_effective_archive_dir(|| -> Option<String> { panic!("the fallback must not run") }),
        Some("X".to_string())
    );
}

#[test]
fn loading_settings_from_registry_values() {
    let p = load_polaris_setting(None);
    assert_eq!(p.archive_path, "");
    assert_eq!(p.capacity_threshold_bytes, DEFAULT_CAPACITY);
    let p = load_polaris_setting(Some(PolarisRegistryValues {
        archive_path: Some("A".to_string()),
        capacity_threshold_bytes: None,
    }));
    assert_eq!(p.archive_path, "A");
    assert_eq!(p.capacity_threshold_bytes, 314_572_800);
    let p = load_polaris_setting(Some(PolarisRegistryValues {
        archive_path: None,
        capacity_threshold_bytes: Some(42),
    }));
    assert_eq!(p.archive_path, "");
    assert_eq!(p.capacity_threshold_bytes, 42);

    let s = load_stellarecord_setting(Some(StellaRecordRegistryValues {
        archive_path: Some("A".to_string()),
        db_path: None,
        enable_startup: Some(1),
        startup_preference_set: Some(0),
    }));
    assert_eq!(s.archive_path, "A");
    assert_eq!(s.db_path, "");
    assert!(s.enable_startup);
    assert!(!s.startup_preference_set);
    let s = load_stellarecord_setting(None);
    assert!(!s.enable_startup && !s.startup_preference_set);
}

#[test]
fn saving_settings_writes_named_values() {
    let writes = save_polaris_setting(&PolarisSetting {
        archive_path: "P".to_string(),
        capacity_threshold_bytes: 7,
    });
    assert_eq!(writes.len(), 2);
    match &writes[0] {
        RegistryWrite::Text { name, value } => {
            assert_eq!(*name, "ArchivePath");
            assert_eq!(value, "P");
        }
        _ => panic!("ArchivePath is text"),
    }
    match &writes[1] {
        RegistryWrite::Number64 { name, value } => {
            assert_eq!(*name, "CapacityThresholdBytes");
            assert_eq!(*value, 7);
        }
        _ => panic!("the threshold is a 64-bit number"),
    }
    let writes = save_stellarecord_setting(&StellaRecordSetting {
        archive_path: "A".to_string(),
        db_path: "D".to_string(),
        enable_startup: true,
        startup_preference_set: false,
    });
    assert_eq!(writes.len(), 4);
    match &writes[2] {
        RegistryWrite::Number32 { name, value } => {
            assert_eq!(*name, "EnableStartup");
            assert_eq!(*value, 1);
        }
        _ => panic!("flags are 32-bit numbers"),
    }
    match &writes[3] {
        RegistryWrite::Number32 { name, value } => {
            assert_eq!(*name, "StartupPreferenceSet");
            assert_eq!(*value, 0);
        }
        _ => panic!("flags are 32-bit numbers"),
    }
    assert_eq!(
        registry_write_error("DbPath", "denied"),
        "DbPath の書き込みに失敗しました: denied"
    );
    assert_eq!(
        create_key_error("K", "denied"),
        "レジストリキーを作成できませんでした [K]: denied"
    );
}

#[test]
fn startup_import_settings_need_both_places() {
    let pref = StartupImportPreference {
        enabled: true,
        preference_set: true,
    };
    assert!(startup_import_allowed(&pref));
    assert!(!startup_import_allowed(&StartupImportPreference {
        enabled: true,
        preference_set: false
    }));
    let s = get_startup_import_settings(&pref, Some("A".to_string()), Some("D".to_string())).unwrap();
    assert_eq!(s.log_archive_path, "A");
    assert_eq!(s.database_path, "D");
    match get_startup_import_settings(&pref, None, None) {
        Err(e) => assert_eq!(e, "ログ保存先を取得できませんでした。"),
        Ok(_) => panic!("missing archive directory"),
    }
    match get_startup_import_settings(&pref, Some("A".to_string()), None) {
        Err(e) => assert_eq!(e, "DB保存先を取得できませんでした。"),
        Ok(_) => panic!("missing database path"),
    }
}

fn read_back_text(writes: &[RegistryWrite], key: &str) -> Option<String> {
    writes.iter().rev().find_map(|w| match w {
        RegistryWrite::Text { name, value } if *name == key => Some(value.clone()),
        _ => None,
    })
}

fn read_back_u32(writes: &[RegistryWrite], key: &str) -> Option<u32> {
    writes.iter().rev().find_map(|w| match w {
        RegistryWrite::Number32 { name, value } if *name == key => Some(*value),
        _ => None,
    })
}

#[test]
fn polaris_setting_save_load_roundtrip() {
    let setting = PolarisSetting {
        archive_path: r"F:\planetes-atelier\software\AppTest\archive".to_string(),
        capacity_threshold_bytes: 1_073_741_824,
    };
    let w = save_polaris_setting(&setting);
    let cap = w.iter().find_map(|x| match x {
        RegistryWrite::Number64 { name, value } if *name == "CapacityThresholdBytes" => Some(*value),
        _ => None,
    });
    let loaded = load_polaris_setting(Some(PolarisRegistryValues {
        archive_path: read_back_text(&w, "ArchivePath"),
        capacity_threshold_bytes: cap,
    }));
    assert_eq!(loaded.archive_path, setting.archive_path);
    assert_eq!(loaded.capacity_threshold_bytes, 1_073_741_824);
}

#[test]
fn stellarecord_setting_save_load_roundtrip() {
    let setting = StellaRecordSetting {
        archive_path: r"F:\planetes-atelier\software\AppTest\archive".to_string(),
        db_path: r"F:\planetes-atelier\software\AppTest\db\test.db".to_string(),
        enable_startup: true,
        startup_preference_set: true,
    };
    let w = save_stellarecord_setting(&setting);
    let loaded = load_stellarecord_setting(Some(StellaRecordRegistryValues {
        archive_path: read_back_text(&w, "ArchivePath"),
        db_path: read_back_text(&w, "DbPath"),
        enable_startup: read_back_u32(&w, "EnableStartup"),
        startup_preference_set: read_back_u32(&w, "StartupPreferenceSet"),
    }));
    assert_eq!(loaded.archive_path, r"F:\planetes-atelier\software\AppTest\archive");
    assert_eq!(loaded.db_path, r"F:\planetes-atelier\software\AppTest\db\test.db");
    assert!(loaded.enable_startup);
    assert!(loaded.startup_preference_set);
}
