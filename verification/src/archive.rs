//! The rules of the archive store: which files are source logs, when a
//! source log's `.tar.zst` copy is created or replaced, which files the
//! pickers list and in what order, and which deletions are allowed.

use vstd::prelude::*;

use crate::models::{ArchiveFileItem, DeletableLogInfo};
use crate::order::{sort_by_name, sorted_by_name, Named};
use crate::text::{
    ascii_lower, char_contains, chars_of, concat2, concat3, contains_char, decimal, has_prefix,
    has_suffix, lower_ascii, owned, text_ends_with, text_starts_with, usize_text,
};

verus! {

/// The file name prefix of every VRChat log.
pub const LOG_PREFIX: &'static str = "output_log_";

/// The extension of an archive in the store.
pub const ARCHIVE_SUFFIX: &'static str = ".tar.zst";

/// The extension of a raw log.
pub const LOG_SUFFIX: &'static str = ".txt";

/// `p` ends `s` when ASCII letters are compared without case.
pub open spec fn has_suffix_ignore_ascii_case(s: Seq<char>, p: Seq<char>) -> bool {
    p.len() <= s.len() && forall|i: int|
        0 <= i < p.len() ==> #[trigger] ascii_lower(s[s.len() - p.len() + i]) == ascii_lower(p[i])
}

/// A source log in the shared log folder: its name starts with
/// `output_log_` and its extension is `txt` in any ASCII case. (Such a name
/// does not start with a dot, so its extension is what follows its last
/// dot.)
pub open spec fn source_log_name(name: Seq<char>) -> bool {
    has_prefix(name, LOG_PREFIX@) && has_suffix_ignore_ascii_case(name, LOG_SUFFIX@)
}

/// A log name the user may delete once it is archived: `output_log_…​.txt`.
pub open spec fn deletable_log_name(name: Seq<char>) -> bool {
    has_prefix(name, LOG_PREFIX@) && has_suffix(name, LOG_SUFFIX@)
}

/// A file the log viewer opens from any folder: `output_log_…` ending in
/// `.txt` or `.tar.zst`.
pub open spec fn external_log_name(name: Seq<char>) -> bool {
    has_prefix(name, LOG_PREFIX@) && (has_suffix(name, LOG_SUFFIX@) || has_suffix(
        name,
        ARCHIVE_SUFFIX@,
    ))
}

/// An archive of a raw log that an import reads: `output_log_…​.txt.tar.zst`.
pub open spec fn import_archive_name(name: Seq<char>) -> bool {
    has_prefix(name, LOG_PREFIX@) && has_suffix(name, IMPORT_ARCHIVE_SUFFIX@)
}

/// The ending of an archived raw log.
pub const IMPORT_ARCHIVE_SUFFIX: &'static str = ".txt.tar.zst";

/// Whether a file of the store is an archive an import reads.
pub fn is_import_archive_name(name: &str) -> (r: bool)
    ensures
        r == import_archive_name(name@),
{
    text_starts_with(name, LOG_PREFIX) && text_ends_with(name, IMPORT_ARCHIVE_SUFFIX)
}

/// A file of the archive store.
pub open spec fn archive_file_name(name: Seq<char>) -> bool {
    has_suffix(name, ARCHIVE_SUFFIX@)
}

fn ends_with_ignore_ascii_case(s: &str, p: &str) -> (r: bool)
    ensures
        r == has_suffix_ignore_ascii_case(s@, p@),
{
    let sv = chars_of(s);
    let pv = chars_of(p);
    if pv.len() > sv.len() {
        return false;
    }
    let off = sv.len() - pv.len();
    let mut i: usize = 0;
    while i < pv.len()
        invariant
            sv@ == s@,
            pv@ == p@,
            off == sv.len() - pv.len(),
            i <= pv.len(),
            forall|k: int|
                0 <= k < i ==> #[trigger] ascii_lower(s@[s@.len() - p@.len() + k]) == ascii_lower(
                    p@[k],
                ),
        decreases pv.len() - i,
    {
        if lower_ascii(sv[off + i]) != lower_ascii(pv[i]) {
            return false;
        }
        i = i + 1;
    }
    true
}

/// Whether a file of the shared log folder is a source log.
pub fn is_source_log_name(name: &str) -> (r: bool)
    ensures
        r == source_log_name(name@),
{
    text_starts_with(name, LOG_PREFIX) && ends_with_ignore_ascii_case(name, LOG_SUFFIX)
}

/// Whether a name is one the user may delete once it is archived.
pub fn is_deletable_log_name(name: &str) -> (r: bool)
    ensures
        r == deletable_log_name(name@),
{
    text_starts_with(name, LOG_PREFIX) && text_ends_with(name, LOG_SUFFIX)
}

/// Whether a file in a folder the user picked can be opened by the viewer.
pub fn matches_external_log_format(name: &str) -> (r: bool)
    ensures
        r == external_log_name(name@),
{
    if !text_starts_with(name, LOG_PREFIX) {
        return false;
    }
    text_ends_with(name, LOG_SUFFIX) || text_ends_with(name, ARCHIVE_SUFFIX)
}

/// Whether a name ends with `.tar.zst`.
pub fn has_suffix_archive(name: &str) -> (r: bool)
    ensures
        r == has_suffix(name@, ARCHIVE_SUFFIX@),
{
    text_ends_with(name, ARCHIVE_SUFFIX)
}

/// Whether a file of the archive store is an archive.
pub fn is_archive_file_name(name: &str) -> (r: bool)
    ensures
        r == archive_file_name(name@),
{
    text_ends_with(name, ARCHIVE_SUFFIX)
}

/// The name of the archive that holds the source log `file_name`.
pub fn archive_name_for(file_name: &str) -> (r: String)
    ensures
        r@ == file_name@ + ARCHIVE_SUFFIX@,
{
    concat2(file_name, ARCHIVE_SUFFIX)
}

/// Whether an archive is first written, or rewritten in place of an
/// existing one.
#[derive(Clone, Copy, PartialEq, Eq, Structural, Debug)]
pub enum ArchiveSyncMode {
    Create,
    Replace,
}

/// What to do with one source log.
pub enum SyncDecision {
    /// Write its archive.
    Sync(ArchiveSyncMode),
    /// Leave the archive as it is, with the warning to log if there is one.
    Skip(Option<String>),
}

/// What to do with one source log, and the warning that comes with a skip:
/// an absent archive is created; an existing one is replaced only by a
/// source that is longer and starts with the archived bytes; anything else
/// leaves it alone, with a warning unless the source equals the archive.
pub open spec fn sync_decision_of(
    file_name: Seq<char>,
    archive_exists: bool,
    archived_size: u64,
    source_size: u64,
    source_extends: bool,
) -> (Option<ArchiveSyncMode>, Option<Seq<char>>) {
    if !archive_exists {
        (Some(ArchiveSyncMode::Create), None)
    } else if source_size < archived_size {
        (
            None,
            Some("Data の zst を更新しません。元ログが既存アーカイブより小さいためです ["@
                + file_name + "]"@),
        )
    } else if source_size == archived_size {
        if source_extends {
            (None, None)
        } else {
            (
                None,
                Some("Data の zst を更新しません。同サイズですが内容が異なります ["@ + file_name
                    + "]"@),
            )
        }
    } else if source_extends {
        (Some(ArchiveSyncMode::Replace), None)
    } else {
        (
            None,
            Some(
                "Data の zst を更新しません。元ログが既存アーカイブを素直に拡張していません ["@
                    + file_name + "]"@,
            ),
        )
    }
}

/// Whether deciding needs to compare the archived bytes with the source:
/// only when the archive exists and the source is not shorter.
pub fn needs_content_check(archive_exists: bool, archived_size: u64, source_size: u64) -> (r: bool)
    ensures
        r == (archive_exists && source_size >= archived_size),
{
    archive_exists && source_size >= archived_size
}

/// What one step of comparing archived bytes with the start of the source
/// decides.
pub enum PrefixStep {
    /// The archived bytes have ended and all of them matched.
    Matched,
    /// This chunk matched; compare the next one.
    Continue,
    /// The source differs from the archived bytes, or ended before them.
    Differ,
}

/// What one step decides for a chunk of archived bytes and the source bytes
/// read for the same span.
pub open spec fn prefix_step_of(archived: Seq<u8>, source: Seq<u8>) -> PrefixStep {
    if archived.len() == 0 {
        PrefixStep::Matched
    } else if archived == source {
        PrefixStep::Continue
    } else {
        PrefixStep::Differ
    }
}

/// Whether the whole comparison ends in [`PrefixStep::Matched`] when the
/// archived bytes are read as `chunks` (after which an empty chunk is read)
/// and, for each chunk, as many source bytes are read as the chunk holds, or
/// what is left of the source when fewer remain.
pub open spec fn chunked_prefix_equal(chunks: Seq<Seq<u8>>, source: Seq<u8>) -> bool
    decreases chunks.len(),
{
    if chunks.len() == 0 {
        prefix_step_of(Seq::empty(), Seq::empty()) is Matched
    } else {
        let c = chunks[0];
        let n = if c.len() <= source.len() {
            c.len()
        } else {
            source.len()
        };
        match prefix_step_of(c, source.take(n as int)) {
            PrefixStep::Matched => true,
            PrefixStep::Continue => chunked_prefix_equal(chunks.drop_first(), source.skip(n as int)),
            PrefixStep::Differ => false,
        }
    }
}

/// Comparing chunk by chunk decides the whole question: however the archived
/// bytes are cut into non-empty chunks, repeated steps end in
/// [`PrefixStep::Matched`] exactly when all the archived bytes are the first
/// bytes of the source.
pub proof fn law_chunked_prefix_compare(chunks: Seq<Seq<u8>>, source: Seq<u8>)
    requires
        forall|i: int| 0 <= i < chunks.len() ==> #[trigger] chunks[i].len() > 0,
    ensures
        chunked_prefix_equal(chunks, source) <==> chunks.flatten().is_prefix_of(source),
    decreases chunks.len(),
{
    if chunks.len() == 0 {
        assert(chunks.flatten() =~= Seq::<u8>::empty());
        assert(Seq::<u8>::empty().is_prefix_of(source));
    } else {
        let c = chunks[0];
        let rest = chunks.drop_first();
        let f = chunks.flatten();
        let n: int = if c.len() <= source.len() {
            c.len() as int
        } else {
            source.len() as int
        };
        assert(f == c + rest.flatten());
        assert forall|i: int| 0 <= i < rest.len() implies #[trigger] rest[i].len() > 0 by {
            assert(rest[i] == chunks[i + 1]);
        }
        law_chunked_prefix_compare(rest, source.skip(n));
        assert(c.len() > 0);
        if c == source.take(n) {
            assert(n == c.len());
            if rest.flatten().is_prefix_of(source.skip(n)) {
                assert(f =~= source.subrange(0, f.len() as int));
            }
            if f.is_prefix_of(source) {
                assert(rest.flatten() =~= source.skip(n).subrange(0, rest.flatten().len() as int))
                    by {
                    assert forall|k: int| 0 <= k < rest.flatten().len() implies rest.flatten()[k]
                        == source.skip(n)[k] by {
                        assert(f[n + k] == rest.flatten()[k]);
                        assert(f[n + k] == source[n + k]);
                    }
                }
            }
        } else {
            if f.is_prefix_of(source) {
                assert(n == c.len());
                assert(c =~= source.take(n)) by {
                    assert forall|k: int| 0 <= k < c.len() implies c[k] == source.take(n)[k] by {
                        assert(f[k] == c[k]);
                        assert(f[k] == source[k]);
                    }
                }
            }
        }
    }
}

/// One step of the chunk-by-chunk comparison: `archived` is the next chunk of
/// archived bytes (empty once they have ended) and `source` the bytes read
/// from the source for the same span (shorter when the source ends first).
pub fn prefix_chunk_step(archived: &[u8], source: &[u8]) -> (r: PrefixStep)
    ensures
        archived@.len() == 0 ==> r is Matched,
        archived@.len() > 0 && archived@ == source@ ==> r is Continue,
        archived@.len() > 0 && archived@ != source@ ==> r is Differ,
        r == prefix_step_of(archived@, source@),
{
    if archived.len() == 0 {
        return PrefixStep::Matched;
    }
    if archived.len() != source.len() {
        return PrefixStep::Differ;
    }
    let mut i: usize = 0;
    while i < archived.len()
        invariant
            i <= archived@.len(),
            archived@.len() == source@.len(),
            forall|k: int| 0 <= k < i ==> archived@[k] == source@[k],
        decreases archived.len() - i,
    {
        if archived[i] != source[i] {
            return PrefixStep::Differ;
        }
        i = i + 1;
    }
    assert(archived@ =~= source@);
    PrefixStep::Continue
}

/// Decides what to do with the source log `file_name`, given whether its
/// archive exists, the size recorded in the archive, the source's size and
/// whether the source starts with the archived bytes (which is read only
/// where [`needs_content_check`] says so).
pub fn plan_archive_sync(
    file_name: &str,
    archive_exists: bool,
    archived_size: u64,
    source_size: u64,
    source_extends: bool,
) -> (r: SyncDecision)
    ensures
        match r {
            SyncDecision::Sync(mode) => sync_decision_of(
                file_name@,
                archive_exists,
                archived_size,
                source_size,
                source_extends,
            ) == (Some(mode), None::<Seq<char>>),
            SyncDecision::Skip(w) => sync_decision_of(
                file_name@,
                archive_exists,
                archived_size,
                source_size,
                source_extends,
            ) == (None::<ArchiveSyncMode>, crate::patterns::opt_view(w)),
        },
{
    if !archive_exists {
        SyncDecision::Sync(ArchiveSyncMode::Create)
    } else if source_size < archived_size {
        SyncDecision::Skip(
            Some(
                concat3(
                    "Data の zst を更新しません。元ログが既存アーカイブより小さいためです [",
                    file_name,
                    "]",
                ),
            ),
        )
    } else if source_size == archived_size {
        if source_extends {
            SyncDecision::Skip(None)
        } else {
            SyncDecision::Skip(
                Some(
                    concat3(
                        "Data の zst を更新しません。同サイズですが内容が異なります [",
                        file_name,
                        "]",
                    ),
                ),
            )
        }
    } else if source_extends {
        SyncDecision::Sync(ArchiveSyncMode::Replace)
    } else {
        SyncDecision::Skip(
            Some(
                concat3(
                    "Data の zst を更新しません。元ログが既存アーカイブを素直に拡張していません [",
                    file_name,
                    "]",
                ),
            ),
        )
    }
}

/// An existing archive is never replaced by a shorter source, by one of the
/// same size, or by one that does not start with the archived bytes; and a
/// missing archive is always created.
pub proof fn law_archive_only_grows(
    file_name: Seq<char>,
    archive_exists: bool,
    archived_size: u64,
    source_size: u64,
    source_extends: bool,
)
    ensures
        sync_decision_of(file_name, archive_exists, archived_size, source_size, source_extends).0
            == Some(ArchiveSyncMode::Replace) ==> archive_exists && source_size > archived_size
            && source_extends,
        !archive_exists ==> sync_decision_of(
            file_name,
            archive_exists,
            archived_size,
            source_size,
            source_extends,
        ).0 == Some(ArchiveSyncMode::Create),
        archive_exists ==> sync_decision_of(
            file_name,
            archive_exists,
            archived_size,
            source_size,
            source_extends,
        ).0 != Some(ArchiveSyncMode::Create),
{
}

/// Which names a listing keeps.
#[derive(Clone, Copy)]
pub enum NameKind {
    /// Source logs of the shared log folder.
    SourceLog,
    /// Archives of the store.
    Archive,
    /// Logs the viewer opens from a folder the user picked.
    ExternalLog,
    /// Archives of raw logs that an import reads.
    ImportArchive,
}

/// Whether a name passes a listing.
pub open spec fn name_passes(kind: NameKind, name: Seq<char>) -> bool {
    match kind {
        NameKind::SourceLog => source_log_name(name),
        NameKind::Archive => archive_file_name(name),
        NameKind::ExternalLog => external_log_name(name),
        NameKind::ImportArchive => import_archive_name(name),
    }
}

fn passes(kind: NameKind, name: &str) -> (r: bool)
    ensures
        r == name_passes(kind, name@),
{
    match kind {
        NameKind::SourceLog => is_source_log_name(name),
        NameKind::Archive => is_archive_file_name(name),
        NameKind::ExternalLog => matches_external_log_format(name),
        NameKind::ImportArchive => is_import_archive_name(name),
    }
}

/// The filter of a sequence by its first element.
proof fn lemma_filter_front<A>(s: Seq<A>, p: spec_fn(A) -> bool)
    requires
        s.len() > 0,
    ensures
        s.filter(p) == (if p(s[0]) {
            seq![s[0]] + s.drop_first().filter(p)
        } else {
            s.drop_first().filter(p)
        }),
{
    assert(s =~= seq![s[0]] + s.drop_first());
    Seq::filter_distributes_over_add(seq![s[0]], s.drop_first(), p);
    reveal(Seq::filter);
    assert(seq![s[0]].drop_last() =~= Seq::<A>::empty());
    assert(seq![s[0]].last() == s[0]);
    assert(Seq::<A>::empty().filter(p) =~= Seq::<A>::empty());
    assert(seq![s[0]].drop_last().filter(p) =~= Seq::<A>::empty());
    if p(s[0]) {
        assert(seq![s[0]].filter(p) =~= seq![s[0]]);
    } else {
        assert(seq![s[0]].filter(p) =~= Seq::<A>::empty());
    }
}

/// The items whose names pass a listing.
pub open spec fn kept_by_name<T: Named>(items: Seq<T>, kind: NameKind) -> Seq<T> {
    items.filter(|x: T| name_passes(kind, x.name_view()))
}

/// Keeps the items whose names pass a listing, in their order.
pub fn filter_by_name<T: Named>(items: Vec<T>, kind: NameKind) -> (r: Vec<T>)
    ensures
        r@ == kept_by_name(items@, kind),
{
    let ghost p = |x: T| name_passes(kind, x.name_view());
    let ghost orig = items@;
    let mut rest = items;
    let mut kept: Vec<T> = Vec::new();
    assert(kept@ + rest@.filter(p) =~= orig.filter(p));
    while rest.len() > 0
        invariant
            kept@ + rest@.filter(p) == orig.filter(p),
            p == (|x: T| name_passes(kind, x.name_view())),
        decreases rest.len(),
    {
        let ghost r0 = rest@;
        let ghost k0 = kept@;
        proof {
            lemma_filter_front(r0, p);
        }
        let x = rest.remove(0);
        assert(rest@ =~= r0.drop_first());
        if passes(kind, x.name()) {
            kept.push(x);
            assert(kept@ + rest@.filter(p) =~= k0 + (seq![r0[0]] + r0.drop_first().filter(p)));
        }
    }
    assert(rest@.filter(p) =~= Seq::<T>::empty()) by {
        reveal(Seq::filter);
    }
    assert(kept@ =~= kept@ + rest@.filter(p));
    kept
}

/// The source logs of the shared folder, by name ascending.
pub fn source_log_names(names: Vec<String>) -> (r: Vec<String>)
    ensures
        r@.to_multiset() == kept_by_name(names@, NameKind::SourceLog).to_multiset(),
        sorted_by_name(r@, false),
{
    let kept = filter_by_name(names, NameKind::SourceLog);
    sort_by_name(kept, false)
}

/// The archives an import reads, by name ascending.
pub fn import_archive_names(names: Vec<String>) -> (r: Vec<String>)
    ensures
        r@.to_multiset() == kept_by_name(names@, NameKind::ImportArchive).to_multiset(),
        sorted_by_name(r@, false),
{
    let kept = filter_by_name(names, NameKind::ImportArchive);
    sort_by_name(kept, false)
}

/// Whether any of the names is an archive of the store.
pub fn any_archive_name(names: &Vec<String>) -> (r: bool)
    ensures
        r == exists|i: int| 0 <= i < names@.len() && archive_file_name(#[trigger] names@[i]@),
{
    let mut i: usize = 0;
    while i < names.len()
        invariant
            i <= names.len(),
            forall|k: int| 0 <= k < i ==> !archive_file_name(#[trigger] names@[k]@),
        decreases names.len() - i,
    {
        if is_archive_file_name(names[i].as_str()) {
            return true;
        }
        i = i + 1;
    }
    false
}

/// The archives of the store, by name descending (newest log first).
pub fn archive_file_items(entries: Vec<ArchiveFileItem>) -> (r: Vec<ArchiveFileItem>)
    ensures
        r@.to_multiset() == kept_by_name(entries@, NameKind::Archive).to_multiset(),
        sorted_by_name(r@, true),
{
    let kept = filter_by_name(entries, NameKind::Archive);
    sort_by_name(kept, true)
}

/// The logs of a folder the user picked that the viewer opens, by name
/// descending.
pub fn external_log_items(entries: Vec<ArchiveFileItem>) -> (r: Vec<ArchiveFileItem>)
    ensures
        r@.to_multiset() == kept_by_name(entries@, NameKind::ExternalLog).to_multiset(),
        sorted_by_name(r@, true),
{
    let kept = filter_by_name(entries, NameKind::ExternalLog);
    sort_by_name(kept, true)
}

/// A file of the shared log folder with whether its archive exists.
pub struct SourceLogEntry {
    pub file_name: String,
    pub size_bytes: u64,
    pub archived: bool,
}

/// A source log may be offered for deletion: a deletable name, archived.
pub open spec fn offered_for_deletion(e: SourceLogEntry) -> bool {
    deletable_log_name(e.file_name@) && e.archived
}

/// The entry as the deletion list shows it.
pub open spec fn as_deletable(e: SourceLogEntry) -> DeletableLogInfo {
    DeletableLogInfo { file_name: e.file_name, size_bytes: e.size_bytes }
}

/// The deletion list before sorting.
pub open spec fn deletable_entries(entries: Seq<SourceLogEntry>) -> Seq<DeletableLogInfo> {
    entries.filter(|e: SourceLogEntry| offered_for_deletion(e)).map_values(
        |e: SourceLogEntry| as_deletable(e),
    )
}

/// The source logs the user may delete: archived logs with a deletable
/// name, by name ascending.
pub fn deletable_source_logs(entries: Vec<SourceLogEntry>) -> (r: Vec<DeletableLogInfo>)
    ensures
        r@.to_multiset() == deletable_entries(entries@).to_multiset(),
        sorted_by_name(r@, false),
{
    let ghost p = |e: SourceLogEntry| offered_for_deletion(e);
    let ghost f = |e: SourceLogEntry| as_deletable(e);
    let ghost orig = entries@;
    let mut rest = entries;
    let mut kept: Vec<DeletableLogInfo> = Vec::new();
    assert(kept@ + rest@.filter(p).map_values(f) =~= orig.filter(p).map_values(f));
    while rest.len() > 0
        invariant
            kept@ + rest@.filter(p).map_values(f) == orig.filter(p).map_values(f),
            p == (|e: SourceLogEntry| offered_for_deletion(e)),
            f == (|e: SourceLogEntry| as_deletable(e)),
        decreases rest.len(),
    {
        let ghost r0 = rest@;
        let ghost k0 = kept@;
        proof {
            lemma_filter_front(r0, p);
        }
        let e = rest.remove(0);
        assert(rest@ =~= r0.drop_first());
        let SourceLogEntry { file_name, size_bytes, archived } = e;
        if archived && is_deletable_log_name(file_name.as_str()) {
            kept.push(DeletableLogInfo { file_name, size_bytes });
            assert((seq![r0[0]] + r0.drop_first().filter(p)).map_values(f) =~= seq![f(r0[0])]
                + r0.drop_first().filter(p).map_values(f));
            assert(kept@ + rest@.filter(p).map_values(f) =~= k0 + (seq![r0[0]]
                + r0.drop_first().filter(p)).map_values(f));
        }
    }
    assert(rest@.filter(p) =~= Seq::<SourceLogEntry>::empty()) by {
        reveal(Seq::filter);
    }
    assert(kept@ =~= kept@ + rest@.filter(p).map_values(f));
    sort_by_name(kept, false)
}

/// Checks one requested deletion: the name must be deletable and its
/// archive must exist.
pub fn check_source_log_deletion(file_name: &str, archive_exists: bool) -> (r: Result<(), String>)
    ensures
        !deletable_log_name(file_name@) ==> (r matches Err(e) && e@ == "不正なファイル名です: "@
            + file_name@),
        deletable_log_name(file_name@) && !archive_exists ==> (r matches Err(e) && e@
            == "アーカイブが見つかりません。削除を中止しました: "@ + file_name@ + ARCHIVE_SUFFIX@),
        deletable_log_name(file_name@) && archive_exists ==> r is Ok,
{
    if !is_deletable_log_name(file_name) {
        return Err(concat2("不正なファイル名です: ", file_name));
    }
    if !archive_exists {
        return Err(concat3("アーカイブが見つかりません。削除を中止しました: ", file_name, ARCHIVE_SUFFIX));
    }
    Ok(())
}

/// Checks a request to view a log of a folder the user picked, and tells
/// whether the file is an archive: the name must be one the viewer opens,
/// the folder must exist, and the name must hold no path separator.
pub fn check_external_log_request(folder_path: &str, file_name: &str, folder_is_dir: bool) -> (r:
    Result<bool, String>)
    ensures
        !external_log_name(file_name@) ==> (r matches Err(e) && e@ == "対応していないログ形式です: "@
            + file_name@),
        external_log_name(file_name@) && !folder_is_dir ==> (r matches Err(e) && e@
            == "フォルダが見つかりません: "@ + folder_path@),
        external_log_name(file_name@) && folder_is_dir && (contains_char(file_name@, '/')
            || contains_char(file_name@, '\\')) ==> (r matches Err(e) && e@
            == "ファイル名に区切り文字を含めることはできません。"@),
        external_log_name(file_name@) && folder_is_dir && !contains_char(file_name@, '/')
            && !contains_char(file_name@, '\\') ==> r == Ok::<bool, String>(
            has_suffix(file_name@, ARCHIVE_SUFFIX@),
        ),
{
    if !matches_external_log_format(file_name) {
        return Err(concat2("対応していないログ形式です: ", file_name));
    }
    if !folder_is_dir {
        return Err(folder_not_found_error(folder_path));
    }
    if char_contains(file_name, '/') || char_contains(file_name, '\\') {
        return Err(owned("ファイル名に区切り文字を含めることはできません。"));
    }
    Ok(text_ends_with(file_name, ARCHIVE_SUFFIX))
}

/// The error for a folder that does not exist.
pub fn folder_not_found_error(folder_path: &str) -> (r: String)
    ensures
        r@ == "フォルダが見つかりません: "@ + folder_path@,
{
    concat2("フォルダが見つかりません: ", folder_path)
}

/// The error for a file that does not exist.
pub fn file_not_found_error(file_name: &str) -> (r: String)
    ensures
        r@ == "ファイルが見つかりません: "@ + file_name@,
{
    concat2("ファイルが見つかりません: ", file_name)
}

/// The report of a finished compression run.
pub fn compress_done_message(count: usize) -> (r: String)
    ensures
        r@ == "完了しました。"@ + decimal(count as nat) + "件のログを Data に圧縮同期しました。"@,
{
    let n = usize_text(count);
    concat3("完了しました。", n.as_str(), "件のログを Data に圧縮同期しました。")
}

} // verus!
