//! Turning database rows into viewer markers, and classified lines into the
//! chunks that are sent to the viewer.

use vstd::prelude::*;
use vstd::utf8::encode_utf8;

use crate::models::LogViewerChunk;
use crate::patterns::opt_view;
use crate::text::{owned, str_eq, trim, trimmed};
use crate::viewer::{marker_view, DbKeywordMarker, ViewerLine, ViewerLineView, CHUNK_SIZE};

verus! {

/// The length in bytes of the UTF-8 form of a text, as `str::len` reports it.
pub open spec fn utf8_len(s: Seq<char>) -> usize {
    encode_utf8(s).len() as usize
}

/// The markers that rows of `(text, category)` give: each text trimmed,
/// kept when its trimmed form is at least two bytes long, in row order.
pub open spec fn kept_markers(rows: Seq<(Seq<char>, Seq<char>)>) -> Seq<(Seq<char>, Seq<char>)>
    decreases rows.len(),
{
    if rows.len() == 0 {
        Seq::empty()
    } else {
        let before = kept_markers(rows.drop_last());
        let t = trimmed(rows.last().0);
        if utf8_len(t) >= 2 {
            before.push((rows.last().1, t))
        } else {
            before
        }
    }
}

/// Inserts `m` into markers ordered by decreasing text length, after every
/// marker at least as long (so that equal lengths keep their order).
pub open spec fn insert_by_len(sorted: Seq<(Seq<char>, Seq<char>)>, m: (Seq<char>, Seq<char>)) -> Seq<
    (Seq<char>, Seq<char>),
>
    decreases sorted.len(),
{
    if sorted.len() == 0 {
        seq![m]
    } else if utf8_len(sorted.last().1) >= utf8_len(m.1) {
        sorted.push(m)
    } else {
        insert_by_len(sorted.drop_last(), m).push(sorted.last())
    }
}

/// Markers in order of decreasing text length; a stable sort.
pub open spec fn sort_by_len(ms: Seq<(Seq<char>, Seq<char>)>) -> Seq<(Seq<char>, Seq<char>)>
    decreases ms.len(),
{
    if ms.len() == 0 {
        Seq::empty()
    } else {
        insert_by_len(sort_by_len(ms.drop_last()), ms.last())
    }
}

/// Keeps the first of equal markers: drops each marker that appears
/// earlier in the sequence.
pub open spec fn drop_repeats(ms: Seq<(Seq<char>, Seq<char>)>) -> Seq<(Seq<char>, Seq<char>)>
    decreases ms.len(),
{
    if ms.len() == 0 {
        ms
    } else {
        let before = drop_repeats(ms.drop_last());
        if ms.drop_last().contains(ms.last()) {
            before
        } else {
            before.push(ms.last())
        }
    }
}

/// Dropping repeats keeps every marker once: the result holds the same
/// markers and none of them twice.
pub proof fn lemma_drop_repeats(ms: Seq<(Seq<char>, Seq<char>)>)
    ensures
        forall|x: (Seq<char>, Seq<char>)| drop_repeats(ms).contains(x) <==> ms.contains(x),
        drop_repeats(ms).no_duplicates(),
    decreases ms.len(),
{
    if ms.len() > 0 {
        let d = ms.drop_last();
        let before = drop_repeats(d);
        lemma_drop_repeats(d);
        assert forall|x: (Seq<char>, Seq<char>)| ms.contains(x) <==> (d.contains(x) || x == ms.last()) by {
            if ms.contains(x) {
                let k = choose|k: int| 0 <= k < ms.len() && ms[k] == x;
                if k < ms.len() - 1 {
                    assert(d[k] == x);
                }
            }
            if d.contains(x) {
                let k = choose|k: int| 0 <= k < d.len() && d[k] == x;
                assert(ms[k] == x);
            }
            if x == ms.last() {
                assert(ms[ms.len() - 1] == x);
            }
        }
        if !d.contains(ms.last()) {
            let r = before.push(ms.last());
            assert forall|x: (Seq<char>, Seq<char>)| r.contains(x) <==> (before.contains(x) || x == ms.last()) by {
                if r.contains(x) {
                    let k = choose|k: int| 0 <= k < r.len() && r[k] == x;
                    if k < before.len() {
                        assert(before[k] == x);
                    }
                }
                if before.contains(x) {
                    let k = choose|k: int| 0 <= k < before.len() && before[k] == x;
                    assert(r[k] == x);
                }
                if x == ms.last() {
                    assert(r[r.len() - 1] == x);
                }
            }
            assert forall|i: int, j: int| 0 <= i < r.len() && 0 <= j < r.len() && i != j implies r[i] != r[j] by {
                if i < before.len() && j < before.len() {
                    assert(r[i] == before[i] && r[j] == before[j]);
                } else if i < before.len() {
                    assert(r[i] == before[i]);
                    assert(before.contains(before[i]));
                } else {
                    assert(r[j] == before[j]);
                    assert(before.contains(before[j]));
                }
            }
        }
    }
}

/// The markers built from rows of `(text, category)`.
pub open spec fn markers_of(rows: Seq<(Seq<char>, Seq<char>)>) -> Seq<(Seq<char>, Seq<char>)> {
    drop_repeats(sort_by_len(kept_markers(rows)))
}

/// The views of a list of markers.
pub open spec fn marker_views(ms: Seq<DbKeywordMarker>) -> Seq<(Seq<char>, Seq<char>)> {
    ms.map_values(|m: DbKeywordMarker| marker_view(m))
}

/// Rows as pairs of character sequences.
pub open spec fn pair_views(rows: Seq<(String, String)>) -> Seq<(Seq<char>, Seq<char>)> {
    rows.map_values(|r: (String, String)| (r.0@, r.1@))
}

/// Inserting into `p + q`, where `q` holds only shorter texts and `p` ends
/// with one at least as long, places the marker between them.
proof fn lemma_insert_split(
    p: Seq<(Seq<char>, Seq<char>)>,
    q: Seq<(Seq<char>, Seq<char>)>,
    m: (Seq<char>, Seq<char>),
)
    requires
        forall|k: int| 0 <= k < q.len() ==> utf8_len(#[trigger] q[k].1) < utf8_len(m.1),
        p.len() > 0 ==> utf8_len(p.last().1) >= utf8_len(m.1),
    ensures
        insert_by_len(p + q, m) == p.push(m) + q,
    decreases q.len(),
{
    if q.len() == 0 {
        assert(p + q =~= p);
        if p.len() == 0 {
            assert(p.push(m) + q =~= seq![m]);
        } else {
            assert(p.push(m) + q =~= p.push(m));
        }
    } else {
        let s = p + q;
        assert(s.last() == q.last());
        assert(s.drop_last() =~= p + q.drop_last());
        lemma_insert_split(p, q.drop_last(), m);
        assert(p.push(m) + q =~= (p.push(m) + q.drop_last()).push(q.last()));
    }
}

/// A copy of a marker.
fn copy_marker(m: &DbKeywordMarker) -> (r: DbKeywordMarker)
    ensures
        marker_view(r) == marker_view(*m),
{
    DbKeywordMarker { category: m.category.clone(), text: m.text.clone() }
}

/// Stable sort of markers by decreasing text length.
fn sort_markers(ms: &Vec<DbKeywordMarker>) -> (r: Vec<DbKeywordMarker>)
    ensures
        marker_views(r@) == sort_by_len(marker_views(ms@)),
{
    let mut out: Vec<DbKeywordMarker> = Vec::new();
    let mut i: usize = 0;
    let ghost src = marker_views(ms@);
    while i < ms.len()
        invariant
            i <= ms.len(),
            src == marker_views(ms@),
            marker_views(out@) == sort_by_len(src.take(i as int)),
        decreases ms.len() - i,
    {
        let m = copy_marker(&ms[i]);
        let key = m.text.as_str().len();
        let ghost before = marker_views(out@);
        let mut tail: Vec<DbKeywordMarker> = Vec::new();
        assert(marker_views(tail@).reverse() =~= Seq::<(Seq<char>, Seq<char>)>::empty());
        assert(marker_views(out@) + marker_views(tail@).reverse() =~= before);
        while out.len() > 0 && out[out.len() - 1].text.as_str().len() < key
            invariant
                marker_views(out@) + marker_views(tail@).reverse() == before,
                key == utf8_len(marker_view(m).1),
                forall|k: int|
                    0 <= k < tail@.len() ==> utf8_len(#[trigger] marker_views(tail@)[k].1) < key,
            decreases out.len(),
        {
            let ghost out0 = marker_views(out@);
            let ghost tail0 = marker_views(tail@);
            let last = out.pop().unwrap();
            assert(marker_views(out@) =~= out0.drop_last());
            assert(out0.last() == marker_view(last));
            tail.push(last);
            assert(marker_views(tail@) =~= tail0.push(marker_view(last)));
            assert(marker_views(tail@).reverse() =~= seq![marker_view(last)] + tail0.reverse());
            assert(marker_views(out@) + marker_views(tail@).reverse() =~= out0 + tail0.reverse());
        }
        proof {
            let p = marker_views(out@);
            let q = marker_views(tail@).reverse();
            assert forall|k: int| 0 <= k < q.len() implies utf8_len(#[trigger] q[k].1) < utf8_len(
                marker_view(m).1,
            ) by {
                assert(q[k] == marker_views(tail@)[q.len() - 1 - k]);
            }
            if p.len() > 0 {
                assert(p.last() == marker_view(out@[out@.len() - 1]));
            }
            lemma_insert_split(p, q, marker_view(m));
            assert(src.take(i + 1).drop_last() =~= src.take(i as int));
            assert(src.take(i + 1).last() == marker_view(m));
        }
        let ghost out1 = marker_views(out@);
        out.push(m);
        assert(marker_views(out@) =~= out1.push(marker_view(m)));
        while tail.len() > 0
            invariant
                marker_views(out@) + marker_views(tail@).reverse() == sort_by_len(
                    src.take(i + 1),
                ),
            decreases tail.len(),
        {
            let ghost out0 = marker_views(out@);
            let ghost tail0 = marker_views(tail@);
            let t = tail.pop().unwrap();
            assert(marker_views(tail@) =~= tail0.drop_last());
            assert(tail0.last() == marker_view(t));
            out.push(t);
            assert(marker_views(out@) =~= out0.push(marker_view(t)));
            assert(tail0.reverse() =~= seq![marker_view(t)] + tail0.drop_last().reverse());
            assert(marker_views(out@) + marker_views(tail@).reverse() =~= out0 + tail0.reverse());
        }
        assert(marker_views(tail@).reverse() =~= Seq::<(Seq<char>, Seq<char>)>::empty());
        assert(marker_views(out@) =~= marker_views(out@) + marker_views(tail@).reverse());
        i = i + 1;
    }
    assert(src.take(ms.len() as int) =~= src);
    out
}

/// Keeps the trimmed texts that are at least two bytes long.
fn keep_markers(rows: &Vec<(String, String)>) -> (r: Vec<DbKeywordMarker>)
    ensures
        marker_views(r@) == kept_markers(pair_views(rows@)),
{
    let ghost src = pair_views(rows@);
    let mut out: Vec<DbKeywordMarker> = Vec::new();
    let mut i: usize = 0;
    while i < rows.len()
        invariant
            i <= rows.len(),
            src == pair_views(rows@),
            marker_views(out@) == kept_markers(src.take(i as int)),
        decreases rows.len() - i,
    {
        assert(src.take(i + 1).drop_last() =~= src.take(i as int));
        assert(src.take(i + 1).last() == (rows@[i as int].0@, rows@[i as int].1@));
        let t = trim(rows[i].0.as_str());
        if t.as_str().len() >= 2 {
            let ghost out0 = marker_views(out@);
            out.push(DbKeywordMarker { category: rows[i].1.clone(), text: t });
            assert(marker_views(out@) =~= out0.push((rows@[i as int].1@, trimmed(rows@[i as int].0@))));
        }
        i = i + 1;
    }
    assert(src.take(rows.len() as int) =~= src);
    out
}

/// Whether `m` equals a marker of `ms` before index `end`.
fn occurs_before(ms: &Vec<DbKeywordMarker>, end: usize, m: &DbKeywordMarker) -> (r: bool)
    requires
        end <= ms@.len(),
    ensures
        r == marker_views(ms@).take(end as int).contains(marker_view(*m)),
{
    let ghost src = marker_views(ms@);
    let mut j: usize = 0;
    while j < end
        invariant
            j <= end,
            end <= ms@.len(),
            src == marker_views(ms@),
            forall|k: int| 0 <= k < j ==> src[k] != marker_view(*m),
        decreases end - j,
    {
        if str_eq(ms[j].category.as_str(), m.category.as_str()) && str_eq(
            ms[j].text.as_str(),
            m.text.as_str(),
        ) {
            assert(src.take(end as int)[j as int] == marker_view(*m));
            return true;
        }
        j = j + 1;
    }
    proof {
        if src.take(end as int).contains(marker_view(*m)) {
            let k = choose|k: int|
                0 <= k < src.take(end as int).len() && src.take(end as int)[k] == marker_view(*m);
            assert(src[k] == marker_view(*m));
        }
    }
    false
}

/// Keeps the first of equal markers.
fn dedup_markers(ms: &Vec<DbKeywordMarker>) -> (r: Vec<DbKeywordMarker>)
    ensures
        marker_views(r@) == drop_repeats(marker_views(ms@)),
{
    let ghost src = marker_views(ms@);
    let mut out: Vec<DbKeywordMarker> = Vec::new();
    let mut i: usize = 0;
    while i < ms.len()
        invariant
            i <= ms.len(),
            src == marker_views(ms@),
            marker_views(out@) == drop_repeats(src.take(i as int)),
        decreases ms.len() - i,
    {
        let ghost t1 = src.take(i + 1);
        assert(t1.drop_last() =~= src.take(i as int));
        assert(t1.last() == src[i as int]);
        let seen = occurs_before(ms, i, &ms[i]);
        if !seen {
            let ghost out0 = marker_views(out@);
            let m = copy_marker(&ms[i]);
            out.push(m);
            assert(marker_views(out@) =~= out0.push(src[i as int]));
        }
        i = i + 1;
    }
    assert(src.take(ms.len() as int) =~= src);
    out
}

/// Builds the viewer's markers from database rows of `(text, category)`:
/// texts trimmed, those under two bytes dropped, the rest ordered by
/// decreasing length (longest first, equal lengths in row order), and every
/// repeat of a marker (same category and text) dropped, the first kept.
pub fn build_keyword_markers(rows: &Vec<(String, String)>) -> (r: Vec<DbKeywordMarker>)
    ensures
        marker_views(r@) == markers_of(pair_views(rows@)),
        marker_views(r@).no_duplicates(),
{
    proof {
        lemma_drop_repeats(sort_by_len(kept_markers(pair_views(rows@))));
    }
    let kept = keep_markers(rows);
    let sorted = sort_markers(&kept);
    dedup_markers(&sorted)
}

/// The views of classified lines.
pub open spec fn line_views(lines: Seq<ViewerLine>) -> Seq<ViewerLineView> {
    lines.map_values(|l: ViewerLine| l@)
}

/// `chunk` carries `lines` of stream `session`, one column per field.
pub open spec fn chunk_holds(chunk: LogViewerChunk, session: Seq<char>, lines: Seq<ViewerLineView>) -> bool {
    &&& chunk.session_id@ == session
    &&& chunk.timestamps@.len() == lines.len()
    &&& chunk.levels@.len() == lines.len()
    &&& chunk.categories@.len() == lines.len()
    &&& chunk.raw_lines@.len() == lines.len()
    &&& chunk.highlights@.len() == lines.len()
    &&& forall|i: int|
        0 <= i < lines.len() ==> {
            &&& #[trigger] chunk.timestamps@[i]@ == lines[i].timestamp
            &&& chunk.levels@[i] == lines[i].level
            &&& chunk.categories@[i] == lines[i].category
            &&& chunk.raw_lines@[i]@ == lines[i].raw_line
            &&& opt_view(chunk.highlights@[i]) == lines[i].highlight
        }
}

/// Gathers classified lines into chunks of [`CHUNK_SIZE`] lines.
pub struct ChunkBuilder {
    session_id: String,
    pending: Vec<ViewerLine>,
    /// Every line pushed so far.
    pushed: Ghost<Seq<ViewerLineView>>,
    /// Every line handed out in a chunk so far.
    sent: Ghost<Seq<ViewerLineView>>,
}

impl ChunkBuilder {
    /// The stream the chunks belong to.
    pub closed spec fn session(&self) -> Seq<char> {
        self.session_id@
    }

    /// The lines pushed and not yet handed out.
    pub closed spec fn pending(&self) -> Seq<ViewerLineView> {
        line_views(self.pending@)
    }

    /// Every line pushed so far.
    pub closed spec fn pushed(&self) -> Seq<ViewerLineView> {
        self.pushed@
    }

    /// Every line handed out in a chunk so far.
    pub closed spec fn sent(&self) -> Seq<ViewerLineView> {
        self.sent@
    }

    /// No line is lost or repeated: what was pushed is what was sent and
    /// then what waits; and fewer than a chunk's worth of lines wait.
    pub closed spec fn wf(&self) -> bool {
        &&& self.pushed@ == self.sent@ + line_views(self.pending@)
        &&& self.pending@.len() < CHUNK_SIZE
    }

    /// A builder for stream `session_id` with no line yet.
    pub fn new(session_id: String) -> (r: Self)
        ensures
            r.wf(),
            r.session() == session_id@,
            r.pending() == Seq::<ViewerLineView>::empty(),
            r.pushed() == Seq::<ViewerLineView>::empty(),
            r.sent() == Seq::<ViewerLineView>::empty(),
    {
        let r = ChunkBuilder {
            session_id,
            pending: Vec::new(),
            pushed: Ghost(Seq::empty()),
            sent: Ghost(Seq::empty()),
        };
        assert(line_views(r.pending@) =~= Seq::<ViewerLineView>::empty());
        r
    }

    /// Moves the waiting lines into a chunk.
    fn take_chunk(&mut self) -> (r: LogViewerChunk)
        ensures
            chunk_holds(r, old(self).session(), old(self).pending()),
            final(self).session() == old(self).session(),
            final(self).pending() == Seq::<ViewerLineView>::empty(),
            final(self).pushed() == old(self).pushed(),
            final(self).sent() == old(self).sent() + old(self).pending(),
    {
        let ghost lines = line_views(self.pending@);
        let mut timestamps: Vec<String> = Vec::new();
        let mut levels: Vec<u8> = Vec::new();
        let mut categories: Vec<u8> = Vec::new();
        let mut raw_lines: Vec<String> = Vec::new();
        let mut highlights: Vec<Option<String>> = Vec::new();
        let mut pending: Vec<ViewerLine> = Vec::new();
        std::mem::swap(&mut pending, &mut self.pending);
        let mut i: usize = 0;
        while i < pending.len()
            invariant
                i <= pending.len(),
                lines == line_views(pending@),
                timestamps@.len() == i,
                levels@.len() == i,
                categories@.len() == i,
                raw_lines@.len() == i,
                highlights@.len() == i,
                forall|k: int| 0 <= k < i ==> #[trigger] timestamps@[k]@ == lines[k].timestamp,
                forall|k: int| 0 <= k < i ==> #[trigger] levels@[k] == lines[k].level,
                forall|k: int| 0 <= k < i ==> #[trigger] categories@[k] == lines[k].category,
                forall|k: int| 0 <= k < i ==> #[trigger] raw_lines@[k]@ == lines[k].raw_line,
                forall|k: int| 0 <= k < i ==> opt_view(#[trigger] highlights@[k]) == lines[k].highlight,
            decreases pending.len() - i,
        {
            let l = &pending[i];
            assert(lines[i as int] == l@);
            let ghost (t0, l0, c0, r0, h0) = (timestamps@, levels@, categories@, raw_lines@, highlights@);
            let ts = l.timestamp.clone();
            let rl = l.raw_line.clone();
            let h = match &l.highlight {
                Some(t) => Some(t.clone()),
                None => None,
            };
            assert(ts@ == lines[i as int].timestamp);
            assert(rl@ == lines[i as int].raw_line);
            assert(opt_view(h) == lines[i as int].highlight);
            timestamps.push(ts);
            levels.push(l.level);
            categories.push(l.category);
            raw_lines.push(rl);
            highlights.push(h);
            assert(timestamps@ =~= t0.push(ts));
            assert(raw_lines@ =~= r0.push(rl));
            assert(highlights@ =~= h0.push(h));
            i = i + 1;
        }
        proof {
            self.sent@ = self.sent@ + lines;
            assert(line_views(self.pending@) =~= Seq::<ViewerLineView>::empty());
            assert(self.sent@ + line_views(self.pending@) =~= self.sent@);
        }
        LogViewerChunk {
            session_id: self.session_id.clone(),
            timestamps,
            levels,
            categories,
            raw_lines,
            highlights,
        }
    }

    /// Adds a line; when [`CHUNK_SIZE`] lines wait, hands them out as one
    /// chunk.
    pub fn push(&mut self, line: ViewerLine) -> (r: Option<LogViewerChunk>)
        requires
            old(self).wf(),
        ensures
            final(self).wf(),
            final(self).session() == old(self).session(),
            final(self).pushed() == old(self).pushed().push(line@),
            old(self).pending().len() + 1 == CHUNK_SIZE ==> {
                &&& r matches Some(c) && chunk_holds(c, old(self).session(), old(self).pending().push(line@))
                &&& final(self).pending() == Seq::<ViewerLineView>::empty()
                &&& final(self).sent() == old(self).sent() + old(self).pending().push(line@)
            },
            old(self).pending().len() + 1 < CHUNK_SIZE ==> {
                &&& r is None
                &&& final(self).pending() == old(self).pending().push(line@)
                &&& final(self).sent() == old(self).sent()
            },
    {
        let ghost line_v = line@;
        let ghost p0 = line_views(self.pending@);
        self.pending.push(line);
        proof {
            self.pushed@ = self.pushed@.push(line_v);
            assert(line_views(self.pending@) =~= p0.push(line_v));
        }
        if self.pending.len() >= CHUNK_SIZE {
            Some(self.take_chunk())
        } else {
            None
        }
    }

    /// Hands out the lines still waiting, if there are any.
    pub fn finish(&mut self) -> (r: Option<LogViewerChunk>)
        requires
            old(self).wf(),
        ensures
            final(self).wf(),
            final(self).session() == old(self).session(),
            final(self).pushed() == old(self).pushed(),
            final(self).pending() == Seq::<ViewerLineView>::empty(),
            final(self).sent() == final(self).pushed(),
            old(self).pending().len() > 0 ==> (r matches Some(c) && chunk_holds(
                c,
                old(self).session(),
                old(self).pending(),
            )),
            old(self).pending().len() == 0 ==> r is None,
    {
        if self.pending.len() > 0 {
            Some(self.take_chunk())
        } else {
            assert(self.sent@ + line_views(self.pending@) =~= self.sent@);
            None
        }
    }
}

/// At every point of a stream, the lines pushed are the lines handed out in
/// chunks followed by the lines waiting, in order, and fewer than
/// [`CHUNK_SIZE`] lines wait; once `finish` has run none wait, so every
/// pushed line has been handed out exactly once.
pub proof fn law_chunks_keep_every_line(b: ChunkBuilder)
    requires
        b.wf(),
    ensures
        b.pushed() == b.sent() + b.pending(),
        b.pending().len() < CHUNK_SIZE,
{
}

} // verus!
