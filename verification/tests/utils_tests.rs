use stella_record::utils::{
    command_create_err, command_err, command_open_err, command_read_err, command_remove_err,
    is_sql_identifier,
};

#[test]
fn command_err_formats_context_and_error() {
    let msg = command_err("操作に失敗しました", "disk full");
    assert_eq!(msg, "操作に失敗しました: disk full");
}

#[test]
fn command_open_err_includes_path() {
    let msg = command_open_err("/some/file.db", "permission denied");
    assert!(msg.contains("/some/file.db"));
    assert!(msg.contains("permission denied"));
}

#[test]
fn command_read_err_includes_path() {
    let msg = command_read_err("/data/archive.tar.zst", "corrupt archive");
    assert!(msg.contains("/data/archive.tar.zst"));
    assert!(msg.contains("corrupt archive"));
}

#[test]
fn command_create_err_includes_path() {
    let msg = command_create_err("/new/dir", "no space");
    assert!(msg.contains("/new/dir"));
    assert!(msg.contains("no space"));
}

#[test]
fn command_remove_err_includes_path() {
    let msg = command_remove_err("/old/file.log", "in use");
    assert!(msg.contains("/old/file.log"));
    assert!(msg.contains("in use"));
}

#[test]
fn path_errors_have_their_exact_form() {
    assert_eq!(command_open_err("/a", "e"), "開けませんでした [/a]: e");
    assert_eq!(command_read_err("/a", "e"), "読み取れませんでした [/a]: e");
    assert_eq!(command_create_err("/a", "e"), "作成できませんでした [/a]: e");
    assert_eq!(command_remove_err("/a", "e"), "削除できませんでした [/a]: e");
}

#[test]
fn sql_identifier_validation() {
    assert!(is_sql_identifier("sessions"));
    assert!(is_sql_identifier("with_users_detail"));
    assert!(is_sql_identifier("table1"));
    assert!(!is_sql_identifier(""));
    assert!(!is_sql_identifier("users; DROP TABLE x"));
    assert!(!is_sql_identifier("users WHERE 1=1"));
    assert!(!is_sql_identifier("テーブル"));
}
