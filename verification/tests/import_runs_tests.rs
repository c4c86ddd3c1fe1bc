use stella_record::import::ANALYZE_CANCELED_MESSAGE;
use stella_record::runs::{
    analyze_err, diff_import_finished, enhanced_import_finished, enhanced_import_started,
    ensure_not_canceled, format_diff_import_completion, format_progress_fraction,
    source_name_for_archive, startup_import_needed, startup_sync_failed, DiffImportSummary,
    FileOutcome, ImportRun, RunAction, RunMode,
};

#[test]
fn diff_import_completion_reports_partial_success() {
    let summary = DiffImportSummary {
        total_count: 3,
        failed_filenames: vec!["output_log_failed.txt".to_string()],
    };

    assert_eq!(
        format_diff_import_completion(&summary),
        (
            "2件完了、1件失敗（成功分は保存済み）: output_log_failed.txt".to_string(),
            "2/3".to_string(),
        )
    );
}

#[test]
fn diff_import_completion_reports_full_success() {
    let summary = DiffImportSummary {
        total_count: 3,
        failed_filenames: Vec::new(),
    };

    assert_eq!(
        format_diff_import_completion(&summary),
        (
            "Data 内 zst アーカイブからの取り込みが完了しました。".to_string(),
            "100%".to_string(),
        )
    );
}

#[test]
fn diff_import_completion_lists_five_names_then_counts_the_rest() {
    let failed: Vec<String> = (1..=7).map(|i| format!("f{i}")).collect();
    let summary = DiffImportSummary {
        total_count: 10,
        failed_filenames: failed,
    };
    assert_eq!(
        format_diff_import_completion(&summary),
        (
            "3件完了、7件失敗（成功分は保存済み）: f1、f2、f3、f4、f5、ほか2件".to_string(),
            "3/10".to_string(),
        )
    );
}

#[test]
fn small_helpers() {
    assert_eq!(format_progress_fraction(2, 7), "2/7");
    assert_eq!(analyze_err("ctx", "boom"), "ctx: boom");
    assert_eq!(ensure_not_canceled(true), Err(ANALYZE_CANCELED_MESSAGE.to_string()));
    assert_eq!(ensure_not_canceled(false), Ok(()));
    assert_eq!(source_name_for_archive("output_log_a.txt.tar.zst"), "output_log_a.txt");
    assert_eq!(source_name_for_archive("x.tar.zst.tar.zst"), "x");
    assert_eq!(source_name_for_archive("plain.txt"), "plain.txt");
    assert!(startup_import_needed(1, false));
    assert!(startup_import_needed(0, true));
    assert!(!startup_import_needed(0, false));
    assert_eq!(
        startup_sync_failed("e"),
        ("起動時 Data 同期に失敗しました: e".to_string(), "0%".to_string())
    );
    assert_eq!(enhanced_import_started(2), "2件のアーカイブ同期を開始しました。");
    assert_eq!(
        enhanced_import_finished(&Ok(()), 2),
        ("2件のインポートが完了しました。".to_string(), "100%".to_string())
    );
    assert_eq!(
        enhanced_import_finished(&Err(ANALYZE_CANCELED_MESSAGE.to_string()), 2),
        ("キャンセルしました".to_string(), "0%".to_string())
    );
    assert_eq!(
        diff_import_finished(&Err("x".to_string())),
        ("エラー: x".to_string(), "0%".to_string())
    );
}

fn label(a: &RunAction) -> String {
    match a {
        RunAction::Progress { status, progress } => format!("progress:{status}|{progress}"),
        RunAction::BeginTransaction => "begin".to_string(),
        RunAction::CheckProcessed { name } => format!("check:{name}"),
        RunAction::BeginFile => "savepoint".to_string(),
        RunAction::ImportFile { archive, name } => format!("import:{archive}>{name}"),
        RunAction::CommitFile => "commit-file".to_string(),
        RunAction::RollbackFile => "rollback-file".to_string(),
        RunAction::LogError { message } => format!("log:{message}"),
        RunAction::CommitAll => "commit".to_string(),
        RunAction::RollbackAll => "rollback".to_string(),
        RunAction::Finish(Ok(())) => "finish:ok".to_string(),
        RunAction::Finish(Err(e)) => format!("finish:err:{e}"),
    }
}

/// Runs the machine; `stored` tells which logs are stored, `outcome` how each
/// read goes, and `cancel_at` before which archive index the user cancels.
fn run(
    mode: RunMode,
    files: &[&str],
    stored: &[&str],
    outcome: &dyn Fn(&str) -> FileOutcome,
    cancel_at: Option<usize>,
) -> (Vec<String>, ImportRun) {
    let (mut r, mut acts) = ImportRun::start(mode, files.iter().map(|s| s.to_string()).collect());
    let mut log = Vec::new();
    let mut checked = 0usize;
    loop {
        let last = acts.last().map(label);
        for a in &acts {
            log.push(label(a));
        }
        let next = match acts.last() {
            Some(RunAction::Finish(_)) => return (log, r),
            Some(RunAction::CheckProcessed { name }) => {
                let already = stored.contains(&name.as_str());
                r.processed(already)
            }
            Some(RunAction::ImportFile { name, .. }) => {
                let o = outcome(name);
                r.imported(o)
            }
            _ => {
                let canceled = cancel_at == Some(checked);
                checked += 1;
                r.next_file(canceled)
            }
        };
        let _ = last;
        acts = next;
    }
}

#[test]
fn empty_run_reports_and_ends() {
    let (log, _) = run(RunMode::Diff, &[], &[], &|_| FileOutcome::Imported, None);
    assert_eq!(log, vec!["progress:処理対象ログなし|0/0", "finish:ok"]);
}

#[test]
fn diff_run_skips_stored_logs_and_keeps_going_after_a_failure() {
    let files = ["a.txt.tar.zst", "b.txt.tar.zst", "c.txt.tar.zst"];
    let (log, r) = run(
        RunMode::Diff,
        &files,
        &["a.txt"],
        &|name| {
            if name == "b.txt" {
                FileOutcome::Failed("bad".to_string())
            } else {
                FileOutcome::Imported
            }
        },
        None,
    );
    assert_eq!(
        log,
        vec![
            "progress:3件のログを処理します|0/3",
            "begin",
            "check:a.txt",
            "check:b.txt",
            "progress:処理中: b.txt|1/3",
            "savepoint",
            "import:b.txt.tar.zst>b.txt",
            "rollback-file",
            "log:[StellaRecord] エラー (b.txt): bad",
            "check:c.txt",
            "progress:処理中: c.txt|2/3",
            "savepoint",
            "import:c.txt.tar.zst>c.txt",
            "commit-file",
            "progress:取り込み完了: c.txt|3/3",
            "commit",
            "progress:処理完了|3/3",
            "finish:ok",
        ]
    );
    let summary = r.summary();
    assert_eq!(summary.total_count, 3);
    assert_eq!(summary.failed_filenames, vec!["b.txt".to_string()]);
    assert_eq!(
        format_diff_import_completion(&summary).0,
        "2件完了、1件失敗（成功分は保存済み）: b.txt"
    );
}

#[test]
fn enhanced_run_skips_a_failing_log_and_keeps_the_rest() {
    let files = ["a.txt.tar.zst", "b.txt.tar.zst"];
    let (log, r) = run(
        RunMode::Enhanced,
        &files,
        &[],
        &|name| {
            if name == "a.txt" {
                FileOutcome::Failed("bad".to_string())
            } else {
                FileOutcome::Imported
            }
        },
        None,
    );
    assert_eq!(
        log,
        vec![
            "begin",
            "check:a.txt",
            "progress:処理中: a.txt|1/2",
            "savepoint",
            "import:a.txt.tar.zst>a.txt",
            "rollback-file",
            "log:[StellaRecord] エラー (a.txt): bad",
            "check:b.txt",
            "progress:処理中: b.txt|2/2",
            "savepoint",
            "import:b.txt.tar.zst>b.txt",
            "commit-file",
            "progress:取り込み完了: b.txt|2/2",
            "commit",
            "progress:完了|2/2",
            "finish:ok",
        ]
    );
    assert_eq!(r.summary().failed_filenames, vec!["a.txt".to_string()]);
}

#[test]
fn cancel_rolls_back_everything() {
    let files = ["a.txt.tar.zst", "b.txt.tar.zst"];
    let (log, _) = run(RunMode::Diff, &files, &[], &|_| FileOutcome::Imported, Some(1));
    assert_eq!(
        &log[log.len() - 2..],
        &[
            "rollback".to_string(),
            format!("finish:err:{ANALYZE_CANCELED_MESSAGE}")
        ]
    );
    let (log, _) = run(RunMode::Enhanced, &files, &[], &|_| FileOutcome::Canceled, None);
    assert_eq!(
        &log[log.len() - 3..],
        &[
            "rollback-file".to_string(),
            "rollback".to_string(),
            format!("finish:err:{ANALYZE_CANCELED_MESSAGE}")
        ]
    );
}
