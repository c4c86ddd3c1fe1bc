use stella_record::archive::{
    any_archive_name, archive_file_items, archive_name_for, check_external_log_request,
    check_source_log_deletion, compress_done_message, deletable_source_logs, external_log_items,
    file_not_found_error, folder_not_found_error, import_archive_names, is_deletable_log_name,
    is_source_log_name, matches_external_log_format, needs_content_check, plan_archive_sync,
    prefix_chunk_step, source_log_names, ArchiveSyncMode, PrefixStep, SourceLogEntry,
    SyncDecision,
};
use stella_record::models::ArchiveFileItem;
use stella_record::order::text_less;
use stella_record::replace::{FileReplacement, ReplaceAction};
use stella_record::runs::source_name_for_archive;

fn item(name: &str, size: u64) -> ArchiveFileItem {
    ArchiveFileItem {
        name: name.to_string(),
        size_bytes: size,
    }
}

#[test]
fn source_log_names_need_prefix_and_txt_extension() {
    assert!(is_source_log_name("output_log_2025-01-01_00-00-00.txt"));
    assert!(is_source_log_name("output_log_a.TXT"));
    assert!(is_source_log_name("output_log_a.TxT"));
    assert!(!is_source_log_name("output_log_a.txt.tar.zst"));
    assert!(!is_source_log_name("player_log_a.txt"));
    assert!(!is_source_log_name("output_log_atxt"));
}

#[test]
fn deletable_and_external_names() {
    assert!(is_deletable_log_name("output_log_a.txt"));
    assert!(!is_deletable_log_name("output_log_a.TXT"));
    assert!(matches_external_log_format("output_log_a.txt"));
    assert!(matches_external_log_format("output_log_a.txt.tar.zst"));
    assert!(!matches_external_log_format("output_log_a.zip"));
    assert!(!matches_external_log_format("other.txt"));
}

#[test]
fn archive_name_adds_extension() {
    assert_eq!(archive_name_for("output_log_a.txt"), "output_log_a.txt.tar.zst");
}

#[test]
fn sync_creates_missing_archive() {
    assert!(matches!(
        plan_archive_sync("f.txt", false, 0, 10, false),
        SyncDecision::Sync(ArchiveSyncMode::Create)
    ));
}

#[test]
fn sync_replaces_only_a_strict_extension() {
    assert!(matches!(
        plan_archive_sync("f.txt", true, 10, 20, true),
        SyncDecision::Sync(ArchiveSyncMode::Replace)
    ));
    match plan_archive_sync("f.txt", true, 10, 20, false) {
        SyncDecision::Skip(Some(w)) => assert_eq!(
            w,
            "Data の zst を更新しません。元ログが既存アーカイブを素直に拡張していません [f.txt]"
        ),
        _ => panic!("a diverging source is skipped with a warning"),
    }
}

#[test]
fn sync_leaves_shorter_or_equal_sources() {
    match plan_archive_sync("f.txt", true, 20, 10, true) {
        SyncDecision::Skip(Some(w)) => assert_eq!(
            w,
            "Data の zst を更新しません。元ログが既存アーカイブより小さいためです [f.txt]"
        ),
        _ => panic!("a shorter source is skipped with a warning"),
    }
    assert!(matches!(
        plan_archive_sync("f.txt", true, 10, 10, true),
        SyncDecision::Skip(None)
    ));
    match plan_archive_sync("f.txt", true, 10, 10, false) {
        SyncDecision::Skip(Some(w)) => assert_eq!(
            w,
            "Data の zst を更新しません。同サイズですが内容が異なります [f.txt]"
        ),
        _ => panic!("a different source of equal size is skipped with a warning"),
    }
    assert!(needs_content_check(true, 10, 10));
    assert!(!needs_content_check(true, 10, 9));
    assert!(!needs_content_check(false, 0, 9));
}

#[test]
fn listings_filter_and_order() {
    let names = source_log_names(vec![
        "output_log_b.txt".to_string(),
        "readme.md".to_string(),
        "output_log_a.txt".to_string(),
    ]);
    assert_eq!(names, vec!["output_log_a.txt".to_string(), "output_log_b.txt".to_string()]);

    let archives = archive_file_items(vec![
        item("output_log_a.txt.tar.zst", 1),
        item("x.tmp", 2),
        item("output_log_c.txt.tar.zst", 3),
        item("output_log_b.txt.tar.zst", 4),
    ]);
    let got: Vec<&str> = archives.iter().map(|i| i.name.as_str()).collect();
    assert_eq!(
        got,
        vec![
            "output_log_c.txt.tar.zst",
            "output_log_b.txt.tar.zst",
            "output_log_a.txt.tar.zst"
        ]
    );
    assert_eq!(archives[0].size_bytes, 3);

    let external = external_log_items(vec![
        item("output_log_a.txt", 1),
        item("output_log_b.txt.tar.zst", 2),
        item("notes.txt", 3),
    ]);
    let got: Vec<&str> = external.iter().map(|i| i.name.as_str()).collect();
    assert_eq!(got, vec!["output_log_b.txt.tar.zst", "output_log_a.txt"]);

    let imports = import_archive_names(vec![
        "output_log_b.txt.tar.zst".to_string(),
        "output_log_a.txt.tar.zst".to_string(),
        "other.tar.zst".to_string(),
    ]);
    assert_eq!(
        imports,
        vec![
            "output_log_a.txt.tar.zst".to_string(),
            "output_log_b.txt.tar.zst".to_string()
        ]
    );
    assert!(any_archive_name(&vec!["a".to_string(), "b.tar.zst".to_string()]));
    assert!(!any_archive_name(&vec!["a".to_string()]));
}

#[test]
fn deletable_logs_need_archive_and_name() {
    let logs = deletable_source_logs(vec![
        SourceLogEntry {
            file_name: "output_log_b.txt".to_string(),
            size_bytes: 2,
            archived: true,
        },
        SourceLogEntry {
            file_name: "output_log_c.txt".to_string(),
            size_bytes: 3,
            archived: false,
        },
        SourceLogEntry {
            file_name: "output_log_a.txt".to_string(),
            size_bytes: 1,
            archived: true,
        },
        SourceLogEntry {
            file_name: "notes.txt".to_string(),
            size_bytes: 4,
            archived: true,
        },
    ]);
    let got: Vec<(&str, u64)> = logs.iter().map(|l| (l.file_name.as_str(), l.size_bytes)).collect();
    assert_eq!(got, vec![("output_log_a.txt", 1), ("output_log_b.txt", 2)]);
}

#[test]
fn deletion_checks() {
    assert_eq!(
        check_source_log_deletion("../x.txt", true).unwrap_err(),
        "不正なファイル名です: ../x.txt"
    );
    assert_eq!(
        check_source_log_deletion("output_log_a.txt", false).unwrap_err(),
        "アーカイブが見つかりません。削除を中止しました: output_log_a.txt.tar.zst"
    );
    assert!(check_source_log_deletion("output_log_a.txt", true).is_ok());
}

#[test]
fn external_requests_are_checked_in_order() {
    assert_eq!(
        check_external_log_request("/d", "x.zip", false).unwrap_err(),
        "対応していないログ形式です: x.zip"
    );
    assert_eq!(
        check_external_log_request("/d", "output_log_a.txt", false).unwrap_err(),
        "フォルダが見つかりません: /d"
    );
    assert_eq!(
        check_external_log_request("/d", "output_log_/a.txt", true).unwrap_err(),
        "ファイル名に区切り文字を含めることはできません。"
    );
    assert_eq!(
        check_external_log_request("/d", "output_log_\\a.txt", true).unwrap_err(),
        "ファイル名に区切り文字を含めることはできません。"
    );
    assert_eq!(check_external_log_request("/d", "output_log_a.txt", true), Ok(false));
    assert_eq!(
        check_external_log_request("/d", "output_log_a.txt.tar.zst", true),
        Ok(true)
    );
}

#[test]
fn messages() {
    assert_eq!(
        compress_done_message(3),
        "完了しました。3件のログを Data に圧縮同期しました。"
    );
    assert_eq!(file_not_found_error("a"), "ファイルが見つかりません: a");
    assert_eq!(folder_not_found_error("/d"), "フォルダが見つかりません: /d");
}

#[test]
fn text_order_is_byte_order() {
    assert!(text_less("a", "b"));
    assert!(text_less("a", "ab"));
    assert!(!text_less("ab", "a"));
    assert!(!text_less("a", "a"));
    assert!(text_less("Z", "a"));
    assert!(text_less("z", "あ"));
    let mut v = vec!["あ", "z", "Z", "ab", "a"];
    v.sort();
    for w in v.windows(2) {
        assert!(text_less(w[0], w[1]));
    }
}

#[test]
fn archive_names_lead_back_to_their_logs() {
    for name in ["output_log_a.txt", "x", ""] {
        assert_eq!(source_name_for_archive(&archive_name_for(name)), name);
    }
}

fn finish_label(a: &ReplaceAction) -> String {
    match a {
        ReplaceAction::RemoveFile(p) => format!("remove {p}"),
        ReplaceAction::Rename { from, to } => format!("rename {from} {to}"),
        ReplaceAction::Finish(Ok(()), w) => format!("ok {}", w.clone().unwrap_or_default()),
        ReplaceAction::Finish(Err(e), w) => format!("err {e} | {}", w.clone().unwrap_or_default()),
    }
}

fn replace_run(backup_exists: bool, outcomes: &[Result<(), String>]) -> Vec<String> {
    let (mut r, mut a) = FileReplacement::replace_file_atomically("t.tmp", "t.zst", "t.bak", backup_exists);
    let mut log = Vec::new();
    let mut i = 0;
    loop {
        log.push(finish_label(&a));
        if matches!(a, ReplaceAction::Finish(..)) {
            return log;
        }
        a = r.advance(outcomes[i].clone());
        i += 1;
    }
}

#[test]
fn replacement_moves_old_file_aside_then_drops_it() {
    assert_eq!(
        replace_run(true, &[Ok(()), Ok(()), Ok(()), Ok(())]),
        vec!["remove t.bak", "rename t.zst t.bak", "rename t.tmp t.zst", "remove t.bak", "ok "]
    );
}

#[test]
fn replacement_restores_old_file_when_new_one_cannot_move_in() {
    assert_eq!(
        replace_run(false, &[Ok(()), Err("busy".to_string()), Ok(())]),
        vec![
            "rename t.zst t.bak",
            "rename t.tmp t.zst",
            "rename t.bak t.zst",
            "err 置き換えに失敗しました [t.zst]: busy | "
        ]
    );
    assert_eq!(
        replace_run(false, &[Ok(()), Err("busy".to_string()), Err("gone".to_string())]).last().unwrap(),
        "err 置き換えに失敗しました [t.zst]: busy | バックアップの復元に失敗しました [t.bak -> t.zst]: gone"
    );
    assert_eq!(
        replace_run(false, &[Err("locked".to_string())]).last().unwrap(),
        "err バックアップへ退避できませんでした [t.zst]: locked | "
    );
    assert_eq!(
        replace_run(false, &[Ok(()), Ok(()), Err("held".to_string())]).last().unwrap(),
        "ok バックアップの削除に失敗しましたが、アーカイブの置き換えは成功しています [t.bak]: held"
    );
}

#[test]
fn prefix_chunks_decide_the_comparison() {
    assert!(matches!(prefix_chunk_step(b"", b""), PrefixStep::Matched));
    assert!(matches!(prefix_chunk_step(b"abc", b"abc"), PrefixStep::Continue));
    assert!(matches!(prefix_chunk_step(b"abc", b"abd"), PrefixStep::Differ));
    assert!(matches!(prefix_chunk_step(b"abc", b"ab"), PrefixStep::Differ));
}

/// Runs the chunk steps over `archived` cut into chunks of `size` bytes.
fn compare_in_chunks(archived: &[u8], source: &[u8], size: usize) -> bool {
    let mut at = 0;
    loop {
        let a = &archived[at.min(archived.len())..(at + size).min(archived.len())];
        let b = &source[at.min(source.len())..(at + a.len()).min(source.len())];
        match prefix_chunk_step(a, b) {
            PrefixStep::Matched => return true,
            PrefixStep::Continue => at += a.len(),
            PrefixStep::Differ => return false,
        }
    }
}

#[test]
fn chunked_comparison_finds_exactly_a_prefix() {
    for size in 1..5 {
        assert!(compare_in_chunks(b"abcdef", b"abcdefgh", size));
        assert!(compare_in_chunks(b"abcdef", b"abcdef", size));
        assert!(compare_in_chunks(b"", b"xyz", size));
        assert!(!compare_in_chunks(b"abcdef", b"abcdxf", size));
        assert!(!compare_in_chunks(b"abcdef", b"abcde", size));
    }
}
