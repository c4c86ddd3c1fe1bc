use stella_record::database::{
    build_table_data, check_preview_table, column_meta, count_sql, format_cell, get_column_comment,
    get_table_comment, missing_table_error, order_clause, page_offset, sanitize_sort_column,
    sanitize_table_name, table_comments, table_page_query, table_summary, visible_objects,
    CellValue,
};

#[test]
fn sanitize_accepts_valid_names() {
    assert_eq!(sanitize_table_name("sessions").unwrap(), "sessions");
    assert_eq!(
        sanitize_table_name("with_users_detail").unwrap(),
        "with_users_detail"
    );
    assert_eq!(sanitize_table_name("table1").unwrap(), "table1");
}

#[test]
fn sanitize_rejects_injection_attempts() {
    assert!(sanitize_table_name("").is_err());
    assert!(sanitize_table_name("users; DROP TABLE x").is_err());
    assert!(sanitize_table_name("users--").is_err());
    assert!(sanitize_table_name("users WHERE 1=1").is_err());
    assert!(sanitize_table_name("テーブル").is_err());
}

#[test]
fn table_comment_lookup() {
    assert!(get_table_comment("sessions").is_some());
    assert!(get_table_comment("nonexistent_table").is_none());
}

#[test]
fn column_comment_lookup() {
    assert!(get_column_comment("sessions", "log_name").is_some());
    assert!(get_column_comment("sessions", "no_such_column").is_none());
    assert!(get_column_comment("no_such_table", "log_name").is_none());
}

#[test]
fn sanitize_sort_column_accepts_registered_column() {
    assert_eq!(
        sanitize_sort_column("sessions", "log_name").unwrap(),
        "log_name"
    );
}

#[test]
fn sanitize_sort_column_rejects_unknown_or_injected_column() {
    assert!(sanitize_sort_column("sessions", "no_such_column").is_err());
    assert!(sanitize_sort_column("sessions", "log_name DESC").is_err());
    assert!(sanitize_sort_column("sessions", "名前").is_err());
}

#[test]
fn sanitize_errors_carry_their_messages() {
    assert_eq!(sanitize_table_name("a b").unwrap_err(), "テーブル名が不正です");
    assert_eq!(
        sanitize_sort_column("sessions", "a b").unwrap_err(),
        "ソートカラム名が不正です"
    );
    assert_eq!(
        sanitize_sort_column("sessions", "missing_column").unwrap_err(),
        "ソートカラムが見つかりません: missing_column"
    );
}

#[test]
fn registry_holds_twelve_objects_in_display_order() {
    let reg = table_comments();
    let names: Vec<&str> = reg.iter().map(|t| t.name).collect();
    assert_eq!(
        names,
        vec![
            "sessions",
            "visits",
            "with_users",
            "find_users",
            "notifications",
            "screenshots",
            "osc",
            "subscription",
            "apps",
            "visit_summary",
            "with_users_detail",
            "screenshots_detail",
        ]
    );
    let notifications = get_table_comment("notifications").unwrap();
    assert_eq!(notifications.columns.len(), 14);
    assert_eq!(notifications.default_sort, Some(("received_at", "DESC")));
    assert!(get_table_comment("visit_summary").unwrap().is_view);
    assert!(!get_table_comment("apps").unwrap().is_view);
    assert_eq!(get_table_comment("find_users").unwrap().default_sort, None);
}

#[test]
fn order_clause_prefers_request_then_default() {
    assert_eq!(
        order_clause("sessions", &Some("account_name".to_string()), &Some("asc".to_string())).unwrap(),
        "ORDER BY account_name ASC"
    );
    assert_eq!(
        order_clause("sessions", &Some("account_name".to_string()), &Some("desc".to_string())).unwrap(),
        "ORDER BY account_name DESC"
    );
    assert_eq!(
        order_clause("sessions", &Some("account_name".to_string()), &None).unwrap(),
        "ORDER BY account_name DESC"
    );
    assert_eq!(order_clause("sessions", &None, &None).unwrap(), "ORDER BY start_time DESC");
    assert_eq!(order_clause("apps", &None, &None).unwrap(), "");
    assert_eq!(order_clause("custom", &None, &None).unwrap(), "");
    let err = order_clause("sessions", &Some("missing_column".to_string()), &Some("asc".to_string()))
        .unwrap_err();
    assert!(err.contains("ソートカラムが見つかりません"));
}

#[test]
fn page_offset_multiplies_and_saturates() {
    assert_eq!(page_offset(None), 0);
    assert_eq!(page_offset(Some(0)), 0);
    assert_eq!(page_offset(Some(1)), 500);
    assert_eq!(page_offset(Some(3)), 1500);
    assert_eq!(page_offset(Some(u32::MAX)), u32::MAX);
}

#[test]
fn page_query_text() {
    assert_eq!(count_sql("apps"), "SELECT COUNT(*) FROM apps");
    assert_eq!(
        table_page_query("apps", Some(1), &None, &None).unwrap(),
        "SELECT * FROM apps  LIMIT 500 OFFSET 500"
    );
    assert_eq!(
        table_page_query("sessions", None, &None, &None).unwrap(),
        "SELECT * FROM sessions ORDER BY start_time DESC LIMIT 500 OFFSET 0"
    );
    assert!(table_page_query("sessions", None, &Some("x y".to_string()), &None).is_err());
}

#[test]
fn preview_table_checks() {
    assert!(check_preview_table("sessions").is_ok());
    assert_eq!(
        check_preview_table("custom").unwrap_err(),
        "プレビュー未登録のテーブルです: custom"
    );
    assert_eq!(
        missing_table_error("visits"),
        "指定テーブルが見つかりませんでした: visits"
    );
}

#[test]
fn visible_objects_keep_registry_order() {
    let present = vec![
        "unregistered_table".to_string(),
        "visits".to_string(),
        "sessions".to_string(),
    ];
    assert_eq!(visible_objects(&present), vec!["sessions".to_string(), "visits".to_string()]);
    assert!(visible_objects(&Vec::new()).is_empty());
}

#[test]
fn summaries_and_column_metadata() {
    let s = table_summary("visits".to_string());
    assert_eq!(s.label, "Join履歴");
    assert_eq!(s.storage, "Main DB");
    assert!(!s.is_view);
    let u = table_summary("custom".to_string());
    assert_eq!(u.label, "custom");
    assert_eq!(u.description, "テーブル説明は未登録です。");
    assert_eq!(u.storage, "DB");
    let c = column_meta("sessions", "log_name");
    assert_eq!(c.label, "元ログ名");
    let d = column_meta("sessions", "extra");
    assert_eq!(d.label, "extra");
    assert_eq!(d.description, "カラム説明は未登録です。");
}

#[test]
fn cells_render_as_the_preview_shows_them() {
    assert_eq!(format_cell(CellValue::Null), "NULL");
    assert_eq!(format_cell(CellValue::Integer(-42)), "-42");
    assert_eq!(format_cell(CellValue::Text("abc".to_string())), "abc");
    assert_eq!(format_cell(CellValue::Blob(vec![1, 2])), "<BLOB>");
}

#[test]
fn table_data_uses_storage_label_for_unregistered_table() {
    let data = build_table_data("custom", "Custom Store", &vec!["id".to_string()], vec![], 0);
    assert_eq!(data.storage, "Custom Store");
    assert_eq!(data.label, "custom");
    let data = build_table_data(
        "sessions",
        "Main DB",
        &vec!["id".to_string(), "log_name".to_string()],
        vec![vec!["1".to_string(), "a.txt".to_string()]],
        3,
    );
    assert_eq!(data.label, "セッション");
    assert_eq!(data.columns[1].label, "元ログ名");
    assert_eq!(data.total_rows, 3);
    assert_eq!(data.rows.len(), 1);
}
