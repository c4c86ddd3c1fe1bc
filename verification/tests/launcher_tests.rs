use stella_record::launcher::{
    app_delete_result, app_insert_error, check_app_registration, display_name_result,
    plan_polaris_start, polaris_started_message, registry_catalog_from_rows, AppRow, PolarisStart,
};

#[test]
fn catalog_encodes_icons_in_base64() {
    let catalog = registry_catalog_from_rows(vec![
        AppRow {
            name: "VRChat".to_string(),
            description: "VR app".to_string(),
            path: "/path/vrchat.exe".to_string(),
            icon: None,
        },
        AppRow {
            name: "App".to_string(),
            description: String::new(),
            path: "/p".to_string(),
            icon: Some(vec![0x89, 0x50]),
        },
    ]);
    assert_eq!(catalog.apps.len(), 2);
    assert_eq!(catalog.apps[0].name, "VRChat");
    assert_eq!(catalog.apps[0].icon_data, None);
    assert_eq!(catalog.apps[1].icon_data, Some("iVA=".to_string()));
}

#[test]
fn registration_checks() {
    assert_eq!(
        check_app_registration(false, "x").unwrap_err(),
        "指定されたファイルが見つかりません。"
    );
    assert_eq!(
        check_app_registration(true, "   ").unwrap_err(),
        "アプリ名を入力してください。"
    );
    assert_eq!(check_app_registration(true, "  App  ").unwrap(), "App");
    assert_eq!(
        app_insert_error(true, "UNIQUE"),
        "同じパスのアプリが既に登録されています。"
    );
    assert_eq!(
        app_insert_error(false, "disk"),
        "アプリの登録に失敗しました: disk"
    );
    assert_eq!(
        app_delete_result(0).unwrap_err(),
        "該当するアプリが見つかりません。"
    );
    assert!(app_delete_result(1).is_ok());
    assert_eq!(
        display_name_result(true, None).unwrap_err(),
        "実行ファイルから表示名を取得できませんでした。"
    );
    assert_eq!(
        display_name_result(true, Some("Name".to_string())).unwrap(),
        "Name"
    );
}

#[test]
fn starting_polaris() {
    assert!(matches!(plan_polaris_start(true, None), PolarisStart::Running(m) if m == "Polaris は既に起動しています。"));
    assert!(matches!(plan_polaris_start(false, None), PolarisStart::Refused(e) if e == "Polaris の実行ファイルパスを特定できませんでした"));
    assert!(matches!(
        plan_polaris_start(false, Some(("C:/P/Polaris.exe".to_string(), false))),
        PolarisStart::Refused(e) if e == "Polaris.exe が見つかりません。"
    ));
    assert!(matches!(
        plan_polaris_start(false, Some(("C:/P/Polaris.exe".to_string(), true))),
        PolarisStart::Launch(p) if p == "C:/P/Polaris.exe"
    ));
    assert_eq!(polaris_started_message(), "Polaris を起動しました。");
}
