//! The decisions of an import run over many archives: which archives are
//! read, what is reported, and what happens to the transaction when a file
//! fails or the user cancels. The caller performs the database work and the
//! reading; this module decides.

use vstd::prelude::*;

use crate::archive::{has_suffix_archive, ARCHIVE_SUFFIX};
use crate::import::ANALYZE_CANCELED_MESSAGE;
use crate::text::{concat2, concat3, decimal, has_suffix, owned, push_str, str_eq, sub_string, text_ends_with, usize_text};

verus! {

/// `"{context}: {err}"`, the form of every import error.
pub fn analyze_err(context: &str, err: &str) -> (r: String)
    ensures
        r@ == context@ + ": "@ + err@,
{
    concat3(context, ": ", err)
}

/// Stops when the user asked to cancel.
pub fn ensure_not_canceled(canceled: bool) -> (r: Result<(), String>)
    ensures
        canceled ==> (r matches Err(e) && e@ == ANALYZE_CANCELED_MESSAGE@),
        !canceled ==> r is Ok,
{
    if canceled {
        Err(owned(ANALYZE_CANCELED_MESSAGE))
    } else {
        Ok(())
    }
}

/// `"{completed}/{total}"`.
pub open spec fn fraction(completed: nat, total: nat) -> Seq<char> {
    decimal(completed) + "/"@ + decimal(total)
}

/// Progress as `"{completed}/{total}"`.
pub fn format_progress_fraction(completed: usize, total: usize) -> (r: String)
    ensures
        r@ == fraction(completed as nat, total as nat),
{
    let a = usize_text(completed);
    let b = usize_text(total);
    concat3(a.as_str(), "/", b.as_str())
}

/// The source log an archive holds: its name with every trailing
/// `.tar.zst` removed.
pub open spec fn source_name_of(name: Seq<char>) -> Seq<char>
    decreases name.len(),
{
    if has_suffix(name, ARCHIVE_SUFFIX@) && ARCHIVE_SUFFIX@.len() > 0 {
        source_name_of(name.subrange(0, name.len() - ARCHIVE_SUFFIX@.len()))
    } else {
        name
    }
}

/// The source log name an archive name stands for.
pub fn source_name_for_archive(file_name: &str) -> (r: String)
    ensures
        r@ == source_name_of(file_name@),
{
    proof {
        reveal_strlit(".tar.zst");
    }
    let mut name = owned(file_name);
    while has_suffix_archive(name.as_str())
        invariant
            source_name_of(name@) == source_name_of(file_name@),
            ARCHIVE_SUFFIX@.len() == 8,
        decreases name@.len(),
    {
        let n = name.as_str().unicode_len();
        let cut = sub_string(name.as_str(), 0, n - 8);
        name = cut;
    }
    name
}

/// The log an archive is named after is the log it stands for: removing
/// the archive extension from `name` + `.tar.zst` gives `name` back, for a
/// name that does not itself end with `.tar.zst`.
pub proof fn law_archive_name_roundtrip(name: Seq<char>)
    requires
        !has_suffix(name, ARCHIVE_SUFFIX@),
    ensures
        source_name_of(name + ARCHIVE_SUFFIX@) == name,
{
    reveal_strlit(".tar.zst");
    let full = name + ARCHIVE_SUFFIX@;
    assert(has_suffix(full, ARCHIVE_SUFFIX@)) by {
        assert(full.subrange(full.len() - ARCHIVE_SUFFIX@.len(), full.len() as int) =~= ARCHIVE_SUFFIX@);
    }
    assert(full.subrange(0, full.len() - ARCHIVE_SUFFIX@.len()) =~= name);
    assert(source_name_of(name) == name);
    assert(source_name_of(full) == source_name_of(full.subrange(0, full.len() - ARCHIVE_SUFFIX@.len())));
}

/// The outcome of a run over the archive store.
pub struct DiffImportSummary {
    pub total_count: usize,
    pub failed_filenames: Vec<String>,
}

/// Texts joined with a separator.
pub open spec fn joined(parts: Seq<Seq<char>>, sep: Seq<char>) -> Seq<char>
    decreases parts.len(),
{
    if parts.len() == 0 {
        Seq::empty()
    } else if parts.len() == 1 {
        parts[0]
    } else {
        joined(parts.drop_last(), sep) + sep + parts.last()
    }
}

/// The final report of a run over the archive store: all went well, or how
/// many archives failed with the first five names and how many more.
pub open spec fn diff_completion(total: nat, failed: Seq<Seq<char>>) -> (Seq<char>, Seq<char>) {
    let n = failed.len();
    if n == 0 {
        ("Data 内 zst アーカイブからの取り込みが完了しました。"@, "100%"@)
    } else {
        let ok = if total >= n {
            (total - n) as nat
        } else {
            0
        };
        let names = joined(failed.take(if n < 5 { n as int } else { 5 }), "、"@);
        let names = if n > 5 {
            names + "、ほか"@ + decimal((n - 5) as nat) + "件"@
        } else {
            names
        };
        (
            decimal(ok) + "件完了、"@ + decimal(n) + "件失敗（成功分は保存済み）: "@ + names,
            fraction(ok, total),
        )
    }
}

/// The views of strings.
pub open spec fn texts_of(v: Seq<String>) -> Seq<Seq<char>> {
    v.map_values(|s: String| s@)
}

/// The final report of a run over the archive store.
pub fn format_diff_import_completion(summary: &DiffImportSummary) -> (r: (String, String))
    ensures
        (r.0@, r.1@) == diff_completion(
            summary.total_count as nat,
            texts_of(summary.failed_filenames@),
        ),
{
    let ghost failed = texts_of(summary.failed_filenames@);
    let n = summary.failed_filenames.len();
    if n == 0 {
        return (
            owned("Data 内 zst アーカイブからの取り込みが完了しました。"),
            owned("100%"),
        );
    }
    let ok = summary.total_count.saturating_sub(n);
    let shown = if n < 5 {
        n
    } else {
        5
    };
    let mut names = String::new();
    let mut i: usize = 0;
    while i < shown
        invariant
            i <= shown,
            shown <= n,
            n == summary.failed_filenames.len(),
            failed == texts_of(summary.failed_filenames@),
            names@ == joined(failed.take(i as int), "、"@),
        decreases shown - i,
    {
        assert(failed.take(i + 1).drop_last() =~= failed.take(i as int));
        assert(failed.take(i + 1).last() == summary.failed_filenames@[i as int]@);
        if i > 0 {
            names.append("、");
        } else {
            assert(failed.take(0) =~= Seq::<Seq<char>>::empty());
        }
        names.append(summary.failed_filenames[i].as_str());
        if i == 0 {
            assert(names@ =~= failed.take(1)[0]);
        }
        i = i + 1;
    }
    if n > 5 {
        names.append("、ほか");
        let more = usize_text(n - 5);
        names.append(more.as_str());
        names.append("件");
    }
    let oks = usize_text(ok);
    let ns = usize_text(n);
    let mut status = concat2(oks.as_str(), "件完了、");
    status.append(ns.as_str());
    status.append("件失敗（成功分は保存済み）: ");
    status.append(names.as_str());
    let progress = format_progress_fraction(ok, summary.total_count);
    (status, progress)
}

/// The two kinds of run: over the whole archive store, or over archives the
/// user picked. In both, an archive that fails is skipped alone.
#[derive(Clone, Copy, PartialEq, Eq, Structural, Debug)]
pub enum RunMode {
    Diff,
    Enhanced,
}

/// Where a run stands.
#[derive(Clone, Copy, PartialEq, Eq, Structural, Debug)]
pub enum RunPhase {
    /// Waiting for [`ImportRun::next_file`].
    AwaitFile,
    /// Waiting for [`ImportRun::processed`].
    AwaitProcessed,
    /// Waiting for [`ImportRun::imported`].
    AwaitImport,
    /// Over.
    Done,
}

/// How reading one archive went.
pub enum FileOutcome {
    Imported,
    Canceled,
    Failed(String),
}

/// [`FileOutcome`] with its text as characters.
pub enum FileOutcomeView {
    Imported,
    Canceled,
    Failed(Seq<char>),
}

impl FileOutcome {
    pub open spec fn view(&self) -> FileOutcomeView {
        match self {
            FileOutcome::Imported => FileOutcomeView::Imported,
            FileOutcome::Canceled => FileOutcomeView::Canceled,
            FileOutcome::Failed(e) => FileOutcomeView::Failed(e@),
        }
    }
}

/// One piece of outside work of a run, in the order they are to be done.
pub enum RunAction {
    /// Report progress to the user.
    Progress { status: String, progress: String },
    /// Open the transaction of the whole run.
    BeginTransaction,
    /// Ask whether a session of this log is already stored, and report it
    /// with [`ImportRun::processed`].
    CheckProcessed { name: String },
    /// Open the savepoint of one archive.
    BeginFile,
    /// Read the archive into the database and report how it went with
    /// [`ImportRun::imported`].
    ImportFile { archive: String, name: String },
    /// Keep the archive's writes.
    CommitFile,
    /// Drop the archive's writes.
    RollbackFile,
    /// Record an error in the log file.
    LogError { message: String },
    /// Keep the whole run's writes.
    CommitAll,
    /// Drop the whole run's writes.
    RollbackAll,
    /// The run is over, with this result.
    Finish(Result<(), String>),
}

/// [`RunAction`] with its texts as characters.
pub enum RunActionView {
    Progress(Seq<char>, Seq<char>),
    BeginTransaction,
    CheckProcessed(Seq<char>),
    BeginFile,
    ImportFile(Seq<char>, Seq<char>),
    CommitFile,
    RollbackFile,
    LogError(Seq<char>),
    CommitAll,
    RollbackAll,
    Finish(Result<(), Seq<char>>),
}

impl RunAction {
    pub open spec fn view(&self) -> RunActionView {
        match self {
            RunAction::Progress { status, progress } => RunActionView::Progress(status@, progress@),
            RunAction::BeginTransaction => RunActionView::BeginTransaction,
            RunAction::CheckProcessed { name } => RunActionView::CheckProcessed(name@),
            RunAction::BeginFile => RunActionView::BeginFile,
            RunAction::ImportFile { archive, name } => RunActionView::ImportFile(archive@, name@),
            RunAction::CommitFile => RunActionView::CommitFile,
            RunAction::RollbackFile => RunActionView::RollbackFile,
            RunAction::LogError { message } => RunActionView::LogError(message@),
            RunAction::CommitAll => RunActionView::CommitAll,
            RunAction::RollbackAll => RunActionView::RollbackAll,
            RunAction::Finish(r) => RunActionView::Finish(
                match r {
                    Ok(()) => Ok(()),
                    Err(e) => Err(e@),
                },
            ),
        }
    }
}

/// The views of actions.
pub open spec fn run_actions_view(v: Seq<RunAction>) -> Seq<RunActionView> {
    v.map_values(|a: RunAction| a@)
}

/// The state of a run.
pub struct RunView {
    pub mode: RunMode,
    pub files: Seq<Seq<char>>,
    pub index: nat,
    pub failed: Seq<Seq<char>>,
    pub phase: RunPhase,
}

/// The end of a run that the user cancelled.
pub open spec fn cancel_actions() -> Seq<RunActionView> {
    seq![RunActionView::RollbackAll, RunActionView::Finish(Err(ANALYZE_CANCELED_MESSAGE@))]
}

/// A run starts: with no archive it reports so and ends; otherwise it
/// announces the count (over the whole store only) and opens its
/// transaction.
pub open spec fn run_start(mode: RunMode, files: Seq<Seq<char>>) -> (RunView, Seq<RunActionView>) {
    let n = files.len();
    if n == 0 {
        (
            RunView { mode, files, index: 0, failed: Seq::empty(), phase: RunPhase::Done },
            seq![
                RunActionView::Progress("処理対象ログなし"@, "0/0"@),
                RunActionView::Finish(Ok(())),
            ],
        )
    } else {
        (
            RunView { mode, files, index: 0, failed: Seq::empty(), phase: RunPhase::AwaitFile },
            if mode == RunMode::Diff {
                seq![
                    RunActionView::Progress(
                        decimal(n) + "件のログを処理します"@,
                        "0/"@ + decimal(n),
                    ),
                    RunActionView::BeginTransaction,
                ]
            } else {
                seq![RunActionView::BeginTransaction]
            },
        )
    }
}

/// Before each archive and after the last: a cancelled run is rolled back
/// whole; after the last archive the run is committed; otherwise the next
/// archive's log is looked up.
pub open spec fn run_next_file(r: RunView, canceled: bool) -> (RunView, Seq<RunActionView>) {
    if canceled {
        (RunView { phase: RunPhase::Done, ..r }, cancel_actions())
    } else if r.index >= r.files.len() {
        let t = r.files.len();
        (
            RunView { phase: RunPhase::Done, ..r },
            seq![
                RunActionView::CommitAll,
                RunActionView::Progress(
                    if r.mode == RunMode::Diff {
                        "処理完了"@
                    } else {
                        "完了"@
                    },
                    fraction(t, t),
                ),
                RunActionView::Finish(Ok(())),
            ],
        )
    } else {
        (
            RunView { phase: RunPhase::AwaitProcessed, ..r },
            seq![RunActionView::CheckProcessed(source_name_of(r.files[r.index as int]))],
        )
    }
}

/// After the lookup: a log already stored is skipped (reported as such in a
/// picked run); otherwise the archive is read inside its own savepoint.
pub open spec fn run_processed(r: RunView, already: bool) -> (RunView, Seq<RunActionView>) {
    let f = source_name_of(r.files[r.index as int]);
    let t = r.files.len();
    if already {
        (
            RunView { index: r.index + 1, phase: RunPhase::AwaitFile, ..r },
            if r.mode == RunMode::Diff {
                Seq::empty()
            } else {
                seq![
                    RunActionView::Progress(
                        "スキップ（DB登録済み）: "@ + f,
                        fraction(r.index + 1, t),
                    ),
                ]
            },
        )
    } else {
        (
            RunView { phase: RunPhase::AwaitImport, ..r },
            seq![
                RunActionView::Progress(
                    "処理中: "@ + f,
                    if r.mode == RunMode::Diff {
                        fraction(r.index, t)
                    } else {
                        fraction(r.index + 1, t)
                    },
                ),
                RunActionView::BeginFile,
                RunActionView::ImportFile(r.files[r.index as int], f),
            ],
        )
    }
}

/// After reading an archive: its writes are kept when it went well; a
/// cancel rolls back everything; a failure rolls back that archive alone,
/// is logged and recorded, and the run goes on with the next archive.
pub open spec fn run_imported(r: RunView, outcome: FileOutcomeView) -> (RunView, Seq<RunActionView>) {
    let f = source_name_of(r.files[r.index as int]);
    let t = r.files.len();
    match outcome {
        FileOutcomeView::Imported => (
            RunView { index: r.index + 1, phase: RunPhase::AwaitFile, ..r },
            seq![
                RunActionView::CommitFile,
                RunActionView::Progress("取り込み完了: "@ + f, fraction(r.index + 1, t)),
            ],
        ),
        FileOutcomeView::Canceled => (
            RunView { phase: RunPhase::Done, ..r },
            seq![RunActionView::RollbackFile] + cancel_actions(),
        ),
        FileOutcomeView::Failed(e) => (
            RunView {
                index: r.index + 1,
                failed: r.failed.push(f),
                phase: RunPhase::AwaitFile,
                ..r
            },
            seq![
                RunActionView::RollbackFile,
                RunActionView::LogError("[StellaRecord] エラー ("@ + f + "): "@ + e),
            ],
        ),
    }
}

/// A run over several archives.
pub struct ImportRun {
    mode: RunMode,
    files: Vec<String>,
    index: usize,
    failed: Vec<String>,
    phase: RunPhase,
}

impl ImportRun {
    pub closed spec fn view(&self) -> RunView {
        RunView {
            mode: self.mode,
            files: texts_of(self.files@),
            index: self.index as nat,
            failed: texts_of(self.failed@),
            phase: self.phase,
        }
    }

    /// The index stays within the archives while one is in hand.
    pub closed spec fn wf(&self) -> bool {
        &&& self.index <= self.files@.len()
        &&& (self.phase == RunPhase::AwaitProcessed || self.phase == RunPhase::AwaitImport)
            ==> self.index < self.files@.len()
    }

    /// Starts a run over `files`, in their order.
    pub fn start(mode: RunMode, files: Vec<String>) -> (r: (Self, Vec<RunAction>))
        ensures
            r.0.wf(),
            (r.0@, run_actions_view(r.1@)) == run_start(mode, texts_of(files@)),
    {
        let n = files.len();
        let ghost fv = texts_of(files@);
        if n == 0 {
            let run = ImportRun { mode, files, index: 0, failed: Vec::new(), phase: RunPhase::Done };
            let acts = vec![
                RunAction::Progress { status: owned("処理対象ログなし"), progress: owned("0/0") },
                RunAction::Finish(Ok(())),
            ];
            assert(run@.failed =~= Seq::<Seq<char>>::empty());
            assert(run_actions_view(acts@) =~= run_start(mode, fv).1);
            return (run, acts);
        }
        let mut acts: Vec<RunAction> = Vec::new();
        if mode == RunMode::Diff {
            let ns = usize_text(n);
            acts.push(
                RunAction::Progress {
                    status: concat2(ns.as_str(), "件のログを処理します"),
                    progress: concat2("0/", ns.as_str()),
                },
            );
        }
        acts.push(RunAction::BeginTransaction);
        let run = ImportRun { mode, files, index: 0, failed: Vec::new(), phase: RunPhase::AwaitFile };
        assert(run@.failed =~= Seq::<Seq<char>>::empty());
        assert(run_actions_view(acts@) =~= run_start(mode, fv).1);
        (run, acts)
    }

    /// The report of a run over the store: how many archives it had and
    /// which failed.
    pub fn summary(&self) -> (r: DiffImportSummary)
        ensures
            r.total_count == self@.files.len(),
            texts_of(r.failed_filenames@) == self@.failed,
    {
        let mut failed: Vec<String> = Vec::new();
        let mut i: usize = 0;
        while i < self.failed.len()
            invariant
                i <= self.failed.len(),
                texts_of(failed@) == texts_of(self.failed@).take(i as int),
            decreases self.failed.len() - i,
        {
            let ghost f0 = texts_of(failed@);
            let c = self.failed[i].clone();
            assert(c@ == self.failed@[i as int]@);
            failed.push(c);
            assert(texts_of(failed@) =~= f0.push(c@));
            assert(texts_of(self.failed@).take(i + 1) =~= texts_of(self.failed@).take(i as int).push(
                self.failed@[i as int]@,
            ));
            i = i + 1;
        }
        assert(texts_of(self.failed@).take(self.failed.len() as int) =~= texts_of(self.failed@));
        DiffImportSummary { total_count: self.files.len(), failed_filenames: failed }
    }

    /// Before the next archive (and after the last one), with whether the
    /// user asked to cancel.
    pub fn next_file(&mut self, canceled: bool) -> (r: Vec<RunAction>)
        requires
            old(self).wf(),
            old(self)@.phase == RunPhase::AwaitFile,
        ensures
            final(self).wf(),
            (final(self)@, run_actions_view(r@)) == run_next_file(old(self)@, canceled),
    {
        if canceled {
            self.phase = RunPhase::Done;
            let acts = vec![RunAction::RollbackAll, RunAction::Finish(Err(owned(ANALYZE_CANCELED_MESSAGE)))];
            assert(run_actions_view(acts@) =~= cancel_actions());
            return acts;
        }
        let t = self.files.len();
        if self.index >= t {
            self.phase = RunPhase::Done;
            let label = if self.mode == RunMode::Diff {
                owned("処理完了")
            } else {
                owned("完了")
            };
            let acts = vec![
                RunAction::CommitAll,
                RunAction::Progress { status: label, progress: format_progress_fraction(t, t) },
                RunAction::Finish(Ok(())),
            ];
            assert(run_actions_view(acts@) =~= run_next_file(old(self)@, canceled).1);
            return acts;
        }
        self.phase = RunPhase::AwaitProcessed;
        let name = source_name_for_archive(self.files[self.index].as_str());
        let acts = vec![RunAction::CheckProcessed { name }];
        assert(texts_of(self.files@)[self.index as int] == self.files@[self.index as int]@);
        assert(run_actions_view(acts@) =~= run_next_file(old(self)@, canceled).1);
        acts
    }

    /// After the lookup of the archive's log.
    pub fn processed(&mut self, already: bool) -> (r: Vec<RunAction>)
        requires
            old(self).wf(),
            old(self)@.phase == RunPhase::AwaitProcessed,
        ensures
            final(self).wf(),
            (final(self)@, run_actions_view(r@)) == run_processed(old(self)@, already),
    {
        let i = self.index;
        let t = self.files.len();
        assert(texts_of(self.files@)[i as int] == self.files@[i as int]@);
        let f = source_name_for_archive(self.files[i].as_str());
        if already {
            self.index = i + 1;
            self.phase = RunPhase::AwaitFile;
            if self.mode == RunMode::Diff {
                let acts: Vec<RunAction> = Vec::new();
                assert(run_actions_view(acts@) =~= Seq::<RunActionView>::empty());
                return acts;
            }
            let acts = vec![
                RunAction::Progress {
                    status: concat2("スキップ（DB登録済み）: ", f.as_str()),
                    progress: format_progress_fraction(i + 1, t),
                },
            ];
            assert(run_actions_view(acts@) =~= run_processed(old(self)@, already).1);
            return acts;
        }
        self.phase = RunPhase::AwaitImport;
        let progress = if self.mode == RunMode::Diff {
            format_progress_fraction(i, t)
        } else {
            format_progress_fraction(i + 1, t)
        };
        let acts = vec![
            RunAction::Progress { status: concat2("処理中: ", f.as_str()), progress },
            RunAction::BeginFile,
            RunAction::ImportFile { archive: self.files[i].clone(), name: f },
        ];
        assert(run_actions_view(acts@) =~= run_processed(old(self)@, already).1);
        acts
    }

    /// After reading the archive.
    pub fn imported(&mut self, outcome: FileOutcome) -> (r: Vec<RunAction>)
        requires
            old(self).wf(),
            old(self)@.phase == RunPhase::AwaitImport,
        ensures
            final(self).wf(),
            (final(self)@, run_actions_view(r@)) == run_imported(old(self)@, outcome@),
    {
        let ghost ov = outcome@;
        let i = self.index;
        let t = self.files.len();
        assert(texts_of(self.files@)[i as int] == self.files@[i as int]@);
        let f = source_name_for_archive(self.files[i].as_str());
        match outcome {
            FileOutcome::Imported => {
                self.index = i + 1;
                self.phase = RunPhase::AwaitFile;
                let acts = vec![
                    RunAction::CommitFile,
                    RunAction::Progress {
                        status: concat2("取り込み完了: ", f.as_str()),
                        progress: format_progress_fraction(i + 1, t),
                    },
                ];
                assert(run_actions_view(acts@) =~= run_imported(old(self)@, ov).1);
                acts
            },
            FileOutcome::Canceled => {
                self.phase = RunPhase::Done;
                let acts = vec![
                    RunAction::RollbackFile,
                    RunAction::RollbackAll,
                    RunAction::Finish(Err(owned(ANALYZE_CANCELED_MESSAGE))),
                ];
                assert(run_actions_view(acts@) =~= run_imported(old(self)@, ov).1);
                acts
            },
            FileOutcome::Failed(e) => {
                let mut message = concat3("[StellaRecord] エラー (", f.as_str(), "): ");
                message.append(e.as_str());
                let ghost failed0 = texts_of(self.failed@);
                let fv = f.clone();
                self.failed.push(fv);
                assert(texts_of(self.failed@) =~= failed0.push(f@));
                self.index = i + 1;
                self.phase = RunPhase::AwaitFile;
                let acts = vec![RunAction::RollbackFile, RunAction::LogError { message }];
                assert(run_actions_view(acts@) =~= run_imported(old(self)@, ov).1);
                acts
            },
        }
    }
}

/// A cancel, noticed before an archive or reported by one, always ends the
/// run by dropping all of its writes, with the cancel message.
pub proof fn law_cancel_drops_everything(r: RunView)
    requires
        r.index < r.files.len(),
    ensures
        run_next_file(r, true).1 == cancel_actions(),
        run_imported(r, FileOutcomeView::Canceled).1.drop_first() == cancel_actions(),
{
    assert(run_imported(r, FileOutcomeView::Canceled).1.drop_first() =~= cancel_actions());
}

/// A failing archive never ends a run, in either mode: it is rolled back
/// alone (only its own savepoint), recorded as failed and logged, and the run
/// goes on with the next archive; the run's other writes are kept.
pub proof fn law_failure_handling(r: RunView, e: Seq<char>)
    requires
        r.index < r.files.len(),
    ensures
        ({
            let (s, acts) = run_imported(r, FileOutcomeView::Failed(e));
            &&& s.phase == RunPhase::AwaitFile
            &&& s.index == r.index + 1
            &&& s.mode == r.mode
            &&& s.failed == r.failed.push(source_name_of(r.files[r.index as int]))
            &&& acts.len() == 2
            &&& acts[0] == RunActionView::RollbackFile
            &&& acts[1] is LogError
        }),
{
}

/// An archive whose log is already stored is never read again.
pub proof fn law_stored_logs_are_skipped(r: RunView)
    requires
        r.index < r.files.len(),
    ensures
        forall|i: int|
            0 <= i < run_processed(r, true).1.len() ==> !(#[trigger] run_processed(r, true).1[i] is ImportFile),
        run_processed(r, true).0.index == r.index + 1,
{
}

/// The reply when archives picked by the user start being imported.
pub fn enhanced_import_started(total: usize) -> (r: String)
    ensures
        r@ == decimal(total as nat) + "件のアーカイブ同期を開始しました。"@,
{
    let n = usize_text(total);
    concat2(n.as_str(), "件のアーカイブ同期を開始しました。")
}

/// The final progress report of a run's result other than success: a
/// cancel, or an error.
pub open spec fn failure_report(err: Seq<char>) -> (Seq<char>, Seq<char>) {
    if err == ANALYZE_CANCELED_MESSAGE@ {
        ("キャンセルしました"@, "0%"@)
    } else {
        ("エラー: "@ + err, "0%"@)
    }
}

fn failure_progress(err: &str) -> (r: (String, String))
    ensures
        (r.0@, r.1@) == failure_report(err@),
{
    if str_eq(err, ANALYZE_CANCELED_MESSAGE) {
        (owned("キャンセルしました"), owned("0%"))
    } else {
        (concat2("エラー: ", err), owned("0%"))
    }
}

/// The final progress report of a run over picked archives.
pub fn enhanced_import_finished(result: &Result<(), String>, total: usize) -> (r: (String, String))
    ensures
        match result {
            Ok(()) => r.0@ == decimal(total as nat) + "件のインポートが完了しました。"@ && r.1@
                == "100%"@,
            Err(e) => (r.0@, r.1@) == failure_report(e@),
        },
{
    match result {
        Ok(()) => {
            let n = usize_text(total);
            (concat2(n.as_str(), "件のインポートが完了しました。"), owned("100%"))
        },
        Err(e) => failure_progress(e.as_str()),
    }
}

/// The final progress report of a run over the store.
pub fn diff_import_finished(result: &Result<DiffImportSummary, String>) -> (r: (String, String))
    ensures
        match result {
            Ok(s) => (r.0@, r.1@) == diff_completion(
                s.total_count as nat,
                texts_of(s.failed_filenames@),
            ),
            Err(e) => (r.0@, r.1@) == failure_report(e@),
        },
{
    match result {
        Ok(s) => format_diff_import_completion(s),
        Err(e) => failure_progress(e.as_str()),
    }
}

/// The report when the startup sync of the store failed.
pub fn startup_sync_failed(err: &str) -> (r: (String, String))
    ensures
        r.0@ == "起動時 Data 同期に失敗しました: "@ + err@,
        r.1@ == "0%"@,
{
    (concat2("起動時 Data 同期に失敗しました: ", err), owned("0%"))
}

/// Whether the startup import has anything to do: logs waiting to be
/// archived, or archives already in the store.
pub fn startup_import_needed(pending_count: usize, has_archives: bool) -> (r: bool)
    ensures
        r == (pending_count > 0 || has_archives),
{
    pending_count > 0 || has_archives
}

} // verus!
