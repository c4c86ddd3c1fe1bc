//! Classification of raw log lines for the log viewer: severity, category,
//! and the database text a line is highlighted by.
use vstd::prelude::*;

use crate::collections::StrMap;
use crate::datetime::{datetime_text, parsed_datetime, reformat_timestamp};
use crate::import::LOG_TIME_FORMAT;
use crate::parser::views;
use crate::patterns::{
    capture_group, group, opt_view, regex_captures, LogPatterns, RE_NOTIFICATION, RE_PLAYER_JOIN,
    RE_PLAYER_JOIN_COMPLETE, RE_PLAYER_LEFT, RE_TIME,
};
use crate::text::{
    char_contains, chars_of, contains_char, contains_text, find, has_prefix, owned, str_eq,
    text_contains, text_starts_with, trim, trimmed,
};

verus! {

/// How many lines one viewer chunk carries.
pub const CHUNK_SIZE: usize = 500;

/// The severity of a raw line.
pub open spec fn level_of(line: Seq<char>) -> Seq<char> {
    if contains_text(line, "[UserInfoLogger] Environment Info:"@) {
        "debug"@
    } else if contains_text(line, "[UserInfoLogger] User Settings Info:"@) {
        "debug"@
    } else if contains_text(line, "Microphones installed ("@) {
        "debug"@
    } else if contains_text(line, " Error "@) || contains_text(line, "Error      -"@) {
        "error"@
    } else if contains_text(line, " Warning "@) || contains_text(line, "Warning    -"@) {
        "warning"@
    } else if contains_text(line, " Debug "@) || contains_text(line, "Debug      -"@) {
        "debug"@
    } else {
        "plain"@
    }
}

/// Classifies a raw log line into a coarse severity.
pub fn classify_log_level(line: &str) -> (r: String)
    ensures
        r@ == level_of(line@),
{
    if text_contains(line, "[UserInfoLogger] Environment Info:") {
        return owned("debug");
    }
    if text_contains(line, "[UserInfoLogger] User Settings Info:") {
        return owned("debug");
    }
    if text_contains(line, "Microphones installed (") {
        return owned("debug");
    }
    if text_contains(line, " Error ") || text_contains(line, "Error      -") {
        return owned("error");
    }
    if text_contains(line, " Warning ") || text_contains(line, "Warning    -") {
        return owned("warning");
    }
    if text_contains(line, " Debug ") || text_contains(line, "Debug      -") {
        return owned("debug");
    }
    owned("plain")
}

/// The wire code of a severity, shared with the viewer front end.
pub open spec fn level_code(level: Seq<char>) -> u8 {
    if level == "info"@ {
        1
    } else if level == "warning"@ {
        2
    } else if level == "error"@ {
        3
    } else if level == "debug"@ {
        4
    } else {
        0
    }
}

/// Encodes a severity for transfer.
pub fn encode_log_level_u8(level: &str) -> (r: u8)
    ensures
        r == level_code(level@),
{
    if str_eq(level, "info") {
        1
    } else if str_eq(level, "warning") {
        2
    } else if str_eq(level, "error") {
        3
    } else if str_eq(level, "debug") {
        4
    } else {
        0
    }
}

/// The wire code of a category, shared with the viewer front end.
pub open spec fn category_code(category: Seq<char>) -> u8 {
    if category == "world"@ {
        1
    } else if category == "notification"@ {
        2
    } else if category == "player_join"@ {
        3
    } else if category == "player_ready"@ {
        4
    } else if category == "player_left"@ {
        5
    } else if category == "debug-system"@ {
        6
    } else if category == "video"@ {
        7
    } else {
        0
    }
}

/// Encodes a category for transfer.
pub fn encode_log_category_u8(category: &str) -> (r: u8)
    ensures
        r == category_code(category@),
{
    if str_eq(category, "world") {
        1
    } else if str_eq(category, "notification") {
        2
    } else if str_eq(category, "player_join") {
        3
    } else if str_eq(category, "player_ready") {
        4
    } else if str_eq(category, "player_left") {
        5
    } else if str_eq(category, "debug-system") {
        6
    } else if str_eq(category, "video") {
        7
    } else {
        0
    }
}

/// A multi-line block the viewer tags as a whole.
#[derive(Debug, Clone, Copy, PartialEq, Eq, Structural)]
pub enum RangeBlockKind {
    /// A `[UserInfoLogger]` block whose continuation lines are indented by
    /// four spaces.
    DebugSystem,
    /// A notification whose payload spans lines; it ends at the line holding
    /// the closing `>`.
    Notification,
}

/// The category a block tags its lines with.
pub open spec fn range_category(kind: RangeBlockKind) -> Seq<char> {
    match kind {
        RangeBlockKind::DebugSystem => "debug-system"@,
        RangeBlockKind::Notification => "notification"@,
    }
}

/// The block a line starts, if any.
pub open spec fn range_start(line: Seq<char>) -> Option<RangeBlockKind> {
    if contains_text(line, "[UserInfoLogger] Environment Info:"@) || contains_text(
        line,
        "[UserInfoLogger] User Settings Info:"@,
    ) || contains_text(line, "Microphones installed ("@) {
        Some(RangeBlockKind::DebugSystem)
    } else if contains_text(line, "Received Notification: <Notification"@) && !contains_char(
        line,
        '>',
    ) {
        Some(RangeBlockKind::Notification)
    } else {
        None
    }
}

/// Whether a line starts a block, and which.
pub fn detect_range_block_start(line: &str) -> (r: Option<RangeBlockKind>)
    ensures
        r == range_start(line@),
{
    if text_contains(line, "[UserInfoLogger] Environment Info:") || text_contains(
        line,
        "[UserInfoLogger] User Settings Info:",
    ) || text_contains(line, "Microphones installed (") {
        return Some(RangeBlockKind::DebugSystem);
    }
    if text_contains(line, "Received Notification: <Notification") && !char_contains(line, '>') {
        return Some(RangeBlockKind::Notification);
    }
    None
}

/// The category name of a block.
pub fn range_block_category(kind: RangeBlockKind) -> (r: String)
    ensures
        r@ == range_category(kind),
{
    match kind {
        RangeBlockKind::DebugSystem => owned("debug-system"),
        RangeBlockKind::Notification => owned("notification"),
    }
}

/// A text taken from the database that marks the lines holding it.
#[derive(Clone)]
pub struct DbKeywordMarker {
    pub category: String,
    pub text: String,
}

/// A marker as `(category, text)`.
pub open spec fn marker_view(m: DbKeywordMarker) -> (Seq<char>, Seq<char>) {
    (m.category@, m.text@)
}

/// The index of the first marker whose text the line holds, from `i` on.
pub open spec fn first_marker_from(line: Seq<char>, markers: Seq<(Seq<char>, Seq<char>)>, i: int) -> Option<
    int,
>
    decreases markers.len() - i,
{
    if i < 0 || i >= markers.len() {
        None
    } else if contains_text(line, markers[i].1) {
        Some(i)
    } else {
        first_marker_from(line, markers, i + 1)
    }
}

/// The markers to scan lines with, in priority order.
pub struct KeywordMarkers {
    markers: Vec<DbKeywordMarker>,
    texts: Vec<Vec<char>>,
}

impl KeywordMarkers {
    /// The markers as `(category, text)` pairs.
    pub closed spec fn view(&self) -> Seq<(Seq<char>, Seq<char>)> {
        self.markers@.map_values(|m: DbKeywordMarker| marker_view(m))
    }

    /// The texts are kept as characters beside their markers.
    pub closed spec fn wf(&self) -> bool {
        &&& self.texts@.len() == self.markers@.len()
        &&& forall|i: int| 0 <= i < self.texts@.len() ==> #[trigger] self.texts@[i]@ == self.markers@[i].text@
    }

    /// Keeps `markers`, in their order.
    pub fn new(markers: Vec<DbKeywordMarker>) -> (r: Self)
        ensures
            r.wf(),
            r@ == markers@.map_values(|m: DbKeywordMarker| marker_view(m)),
    {
        let mut texts: Vec<Vec<char>> = Vec::new();
        let mut i: usize = 0;
        while i < markers.len()
            invariant
                i <= markers.len(),
                texts@.len() == i,
                forall|j: int| 0 <= j < i ==> #[trigger] texts@[j]@ == markers@[j].text@,
            decreases markers.len() - i,
        {
            texts.push(chars_of(markers[i].text.as_str()));
            i = i + 1;
        }
        KeywordMarkers { markers, texts }
    }

    /// The markers, in priority order.
    pub fn markers(&self) -> (r: &Vec<DbKeywordMarker>)
        ensures
            r@.map_values(|m: DbKeywordMarker| marker_view(m)) == self@,
    {
        &self.markers
    }

    /// The first marker whose text the line holds.
    pub fn resolve(&self, line: &Vec<char>) -> (r: Option<&DbKeywordMarker>)
        requires
            self.wf(),
        ensures
            r matches Some(m) ==> first_marker_from(line@, self@, 0) matches Some(i) && self@[i]
                == marker_view(*m),
            r is None ==> first_marker_from(line@, self@, 0) is None,
    {
        let mut i: usize = 0;
        while i < self.markers.len()
            invariant
                self.wf(),
                i <= self.markers@.len(),
                first_marker_from(line@, self@, 0) == first_marker_from(line@, self@, i as int),
            decreases self.markers.len() - i,
        {
            proof {
                assert(self@[i as int].1 == self.texts@[i as int]@);
            }
            if find(line, &self.texts[i]).is_some() {
                return Some(&self.markers[i]);
            }
            i = i + 1;
        }
        None
    }
}

/// Finds the first marker whose text the line holds.
pub fn resolve_db_keyword_marker<'a>(line: &str, markers: &'a KeywordMarkers) -> (r: Option<
    &'a DbKeywordMarker,
>)
    requires
        markers.wf(),
    ensures
        r matches Some(m) ==> first_marker_from(line@, markers@, 0) matches Some(i) && markers@[i]
            == marker_view(*m),
        r is None ==> first_marker_from(line@, markers@, 0) is None,
{
    let v = chars_of(line);
    markers.resolve(&v)
}

/// The categories recorded in the database, by timestamp, in row order.
pub open spec fn category_index_of(rows: Seq<(Seq<char>, Seq<char>)>) -> Map<
    Seq<char>,
    Seq<Seq<char>>,
>
    decreases rows.len(),
{
    if rows.len() == 0 {
        Map::empty()
    } else {
        let m = category_index_of(rows.drop_last());
        let (ts, c) = rows.last();
        m.insert(
            ts,
            (if m.contains_key(ts) {
                m[ts]
            } else {
                seq![]
            }).push(c),
        )
    }
}

/// The view of database rows of two strings.
pub open spec fn rows_view(rows: Seq<(String, String)>) -> Seq<(Seq<char>, Seq<char>)> {
    rows.map_values(|r: (String, String)| (r.0@, r.1@))
}

/// Categories recorded in the database, by timestamp.
pub struct CategoryIndex {
    by_time: StrMap<Vec<String>>,
}

impl CategoryIndex {
    /// The categories of each timestamp, in row order.
    pub closed spec fn view(&self) -> Map<Seq<char>, Seq<Seq<char>>> {
        self.by_time@.map_values(|v: Vec<String>| views(v@))
    }

    /// The map is well formed.
    pub closed spec fn wf(&self) -> bool {
        self.by_time.wf()
    }

    /// Groups `(timestamp, category)` rows by timestamp.
    pub fn from_rows(rows: Vec<(String, String)>) -> (r: Self)
        ensures
            r.wf(),
            r@ == category_index_of(rows_view(rows@)),
    {
        let mut by_time: StrMap<Vec<String>> = StrMap::new();
        let mut i: usize = 0;
        proof {
            assert(rows_view(rows@).take(0) =~= Seq::<(Seq<char>, Seq<char>)>::empty());
            assert(by_time@.map_values(|v: Vec<String>| views(v@)) =~= Map::empty());
        }
        while i < rows.len()
            invariant
                i <= rows.len(),
                by_time.wf(),
                by_time@.map_values(|v: Vec<String>| views(v@)) == category_index_of(
                    rows_view(rows@).take(i as int),
                ),
            decreases rows.len() - i,
        {
            let ghost before = by_time@.map_values(|v: Vec<String>| views(v@));
            let ghost raw_before = by_time@;
            let ts = rows[i].0.as_str();
            let mut list = match by_time.remove(ts) {
                Some(l) => l,
                None => Vec::new(),
            };
            let ghost old_list = views(list@);
            proof {
                if raw_before.contains_key(ts@) {
                    assert(before.contains_key(ts@));
                    assert(old_list == before[ts@]);
                } else {
                    assert(!before.contains_key(ts@));
                    assert(old_list =~= Seq::<Seq<char>>::empty());
                }
            }
            let item = rows[i].1.clone();
            list.push(item);
            proof {
                assert(views(list@) =~= old_list.push(rows[i as int].1@));
            }
            let ghost new_list = views(list@);
            by_time.insert(ts, list);
            proof {
                let rv = rows_view(rows@);
                let key = rows[i as int].0@;
                assert(ts@ == key);
                assert(rv.take(i + 1).drop_last() =~= rv.take(i as int));
                assert(rv.take(i + 1).last() == (rows[i as int].0@, rows[i as int].1@));
                let expect = category_index_of(rv.take(i + 1));
                assert(expect == before.insert(
                    key,
                    (if before.contains_key(key) {
                        before[key]
                    } else {
                        seq![]
                    }).push(rows[i as int].1@),
                ));
                let now = by_time@.map_values(|v: Vec<String>| views(v@));
                assert(by_time@ == raw_before.remove(key).insert(key, by_time@[key]));
                assert(now =~= before.insert(key, new_list));
                assert(now =~= expect);
            }
            i = i + 1;
        }
        proof {
            assert(rows_view(rows@).take(rows.len() as int) =~= rows_view(rows@));
        }
        CategoryIndex { by_time }
    }

    /// The categories recorded at `timestamp`.
    pub fn get(&self, timestamp: &str) -> (r: Option<&Vec<String>>)
        requires
            self.wf(),
        ensures
            r is Some <==> self@.contains_key(timestamp@),
            r matches Some(v) ==> views(v@) == self@[timestamp@],
    {
        self.by_time.get(timestamp)
    }
}

/// The first category of a list.
pub open spec fn first_of(list: Seq<Seq<char>>) -> Option<Seq<char>> {
    if list.len() > 0 {
        Some(list[0])
    } else {
        None
    }
}

/// The category a line takes from the categories recorded at its timestamp:
/// the one its content points to when recorded, and otherwise the first.
pub open spec fn resolve_category(
    line: Seq<char>,
    timestamp: Seq<char>,
    index: Map<Seq<char>, Seq<Seq<char>>>,
) -> Option<Seq<char>> {
    if !index.contains_key(timestamp) {
        None
    } else {
        let matched = index[timestamp];
        if regex_captures(RE_PLAYER_JOIN_COMPLETE@, line) is Some {
            if matched.contains("player_join"@) {
                Some("player_ready"@)
            } else {
                first_of(matched)
            }
        } else {
            let preferred = if regex_captures(RE_PLAYER_JOIN@, line) is Some {
                Some("player_join"@)
            } else if regex_captures(RE_PLAYER_LEFT@, line) is Some {
                Some("player_left"@)
            } else if regex_captures(RE_NOTIFICATION@, line) is Some {
                Some("notification"@)
            } else if contains_text(line, "[Behaviour] Entering Room:"@) || contains_text(
                line,
                "[Behaviour] OnLeftRoom"@,
            ) {
                Some("world"@)
            } else {
                None
            };
            match preferred {
                Some(p) => if matched.contains(p) {
                    Some(p)
                } else {
                    first_of(matched)
                },
                None => first_of(matched),
            }
        }
    }
}

/// A line points to the category its content names, and takes it whenever
/// that category is recorded at its timestamp: a player-joined line takes
/// `player_join`, a player-left line `player_left`, a notification line
/// `notification`, and a line entering or leaving a room `world` (a
/// join-complete line is read first, as `player_ready`).
pub proof fn law_line_takes_its_own_category(
    line: Seq<char>,
    timestamp: Seq<char>,
    index: Map<Seq<char>, Seq<Seq<char>>>,
)
    requires
        index.contains_key(timestamp),
        regex_captures(RE_PLAYER_JOIN_COMPLETE@, line) is None,
    ensures
        regex_captures(RE_PLAYER_JOIN@, line) is Some && index[timestamp].contains("player_join"@)
            ==> resolve_category(line, timestamp, index) == Some("player_join"@),
        regex_captures(RE_PLAYER_JOIN@, line) is None && regex_captures(RE_PLAYER_LEFT@, line) is Some
            && index[timestamp].contains("player_left"@) ==> resolve_category(line, timestamp, index)
            == Some("player_left"@),
        regex_captures(RE_PLAYER_JOIN@, line) is None && regex_captures(RE_PLAYER_LEFT@, line) is None
            && regex_captures(RE_NOTIFICATION@, line) is Some && index[timestamp].contains(
            "notification"@,
        ) ==> resolve_category(line, timestamp, index) == Some("notification"@),
        regex_captures(RE_PLAYER_JOIN@, line) is None && regex_captures(RE_PLAYER_LEFT@, line) is None
            && regex_captures(RE_NOTIFICATION@, line) is None && (contains_text(
            line,
            "[Behaviour] Entering Room:"@,
        ) || contains_text(line, "[Behaviour] OnLeftRoom"@)) && index[timestamp].contains("world"@)
            ==> resolve_category(line, timestamp, index) == Some("world"@),
{
}

/// A join-complete line reads as `player_ready` whenever a join is recorded
/// at its timestamp.
pub proof fn law_join_complete_is_ready(
    line: Seq<char>,
    timestamp: Seq<char>,
    index: Map<Seq<char>, Seq<Seq<char>>>,
)
    requires
        index.contains_key(timestamp),
        index[timestamp].contains("player_join"@),
        regex_captures(RE_PLAYER_JOIN_COMPLETE@, line) is Some,
    ensures
        resolve_category(line, timestamp, index) == Some("player_ready"@),
{
}

fn list_contains(list: &Vec<String>, item: &str) -> (r: bool)
    ensures
        r == views(list@).contains(item@),
{
    let mut i: usize = 0;
    while i < list.len()
        invariant
            i <= list.len(),
            forall|j: int| 0 <= j < i ==> list@[j]@ != item@,
        decreases list.len() - i,
    {
        if str_eq(list[i].as_str(), item) {
            proof {
                assert(views(list@)[i as int] == item@);
            }
            return true;
        }
        i = i + 1;
    }
    proof {
        if views(list@).contains(item@) {
            let j = choose|j: int| 0 <= j < views(list@).len() && views(list@)[j] == item@;
            assert(list@[j]@ == item@);
        }
    }
    false
}

fn first_category(list: &Vec<String>) -> (r: Option<String>)
    ensures
        opt_view(r) == first_of(views(list@)),
{
    if list.len() > 0 {
        Some(list[0].clone())
    } else {
        None
    }
}

/// Resolves the database category of a line from the categories recorded at
/// its timestamp.
pub fn resolve_db_category(
    patterns: &LogPatterns,
    line: &str,
    timestamp: &str,
    db_categories: &CategoryIndex,
) -> (r: Option<String>)
    requires
        db_categories.wf(),
    ensures
        opt_view(r) == resolve_category(line@, timestamp@, db_categories@),
{
    let matched = match db_categories.get(timestamp) {
        Some(m) => m,
        None => {
            return None;
        },
    };
    if patterns.player_join_complete(line) {
        if list_contains(matched, "player_join") {
            return Some(owned("player_ready"));
        }
        return first_category(matched);
    }
    let preferred: Option<&str> = if patterns.player_join(line).is_some() {
        Some("player_join")
    } else if patterns.player_left(line).is_some() {
        Some("player_left")
    } else if patterns.notification(line).is_some() {
        Some("notification")
    } else if text_contains(line, "[Behaviour] Entering Room:") || text_contains(
        line,
        "[Behaviour] OnLeftRoom",
    ) {
        Some("world")
    } else {
        None
    };
    match preferred {
        Some(expected) => {
            if list_contains(matched, expected) {
                Some(owned(expected))
            } else {
                first_category(matched)
            }
        },
        None => first_category(matched),
    }
}

/// The timestamp of a line in the database form, or the empty text.
pub open spec fn line_timestamp(line: Seq<char>) -> Seq<char> {
    match group(regex_captures(RE_TIME@, line), 1) {
        Some(ts) => match parsed_datetime(ts, LOG_TIME_FORMAT@) {
            Some(p) => datetime_text(p),
            None => Seq::empty(),
        },
        None => Seq::empty(),
    }
}

/// One classified line, as the viewer receives it.
pub struct ViewerLine {
    pub timestamp: String,
    pub level: u8,
    pub category: u8,
    pub raw_line: String,
    pub highlight: Option<String>,
}

/// A classified line with its strings as character sequences.
pub struct ViewerLineView {
    pub timestamp: Seq<char>,
    pub level: u8,
    pub category: u8,
    pub raw_line: Seq<char>,
    pub highlight: Option<Seq<char>>,
}

impl ViewerLine {
    /// The line with its strings as character sequences.
    pub open spec fn view(&self) -> ViewerLineView {
        ViewerLineView {
            timestamp: self.timestamp@,
            level: self.level,
            category: self.category,
            raw_line: self.raw_line@,
            highlight: opt_view(self.highlight),
        }
    }
}

/// Classifies one line given the block in progress: the block it leaves in
/// progress and the classified line.
///
/// The category is, in order of priority: the block's, the first matching
/// marker's, the one recorded at the line's timestamp, and `plain`.  Only a
/// marker highlights.
pub open spec fn viewer_step(
    active: Option<RangeBlockKind>,
    line: Seq<char>,
    categories: Option<Map<Seq<char>, Seq<Seq<char>>>>,
    markers: Option<Seq<(Seq<char>, Seq<char>)>>,
) -> (Option<RangeBlockKind>, ViewerLineView) {
    let a1 = if active == Some(RangeBlockKind::DebugSystem) && !has_prefix(line, "    "@) {
        None
    } else {
        active
    };
    let a2 = if a1 is None {
        range_start(line)
    } else {
        a1
    };
    let ts = line_timestamp(line);
    let level = if a2 == Some(RangeBlockKind::DebugSystem) {
        "debug"@
    } else {
        level_of(line)
    };
    let marker = if ts.len() == 0 {
        None
    } else {
        match markers {
            Some(m) => match first_marker_from(line, m, 0) {
                Some(i) => Some(m[i]),
                None => None,
            },
            None => None,
        }
    };
    let category = match a2 {
        Some(k) => range_category(k),
        None => match marker {
            Some(m) => m.0,
            None => match categories {
                Some(c) => match resolve_category(line, ts, c) {
                    Some(x) => x,
                    None => "plain"@,
                },
                None => "plain"@,
            },
        },
    };
    let a3 = if a2 == Some(RangeBlockKind::Notification) && contains_char(line, '>') {
        None
    } else {
        a2
    };
    (
        a3,
        ViewerLineView {
            timestamp: ts,
            level: level_code(level),
            category: category_code(category),
            raw_line: line,
            highlight: match marker {
                Some(m) => Some(m.1),
                None => None,
            },
        },
    )
}

/// The block state of a viewer stream.
pub struct LogViewerState {
    pub active_range: Option<RangeBlockKind>,
}

impl LogViewerState {
    /// A stream before its first line.
    pub fn new() -> (r: Self)
        ensures
            r.active_range is None,
    {
        LogViewerState { active_range: None }
    }

    /// The timestamp of a line in the database form, or the empty text.
    pub fn line_timestamp(patterns: &LogPatterns, line: &str) -> (r: String)
        ensures
            r@ == line_timestamp(line@),
    {
        match capture_group(&patterns.time(line), 1) {
            Some(ts) => match reformat_timestamp(ts.as_str(), LOG_TIME_FORMAT) {
                Some(f) => f,
                None => String::new(),
            },
            None => String::new(),
        }
    }

    /// Classifies the next line of the stream.
    pub fn classify_line(
        &mut self,
        patterns: &LogPatterns,
        line: &str,
        db_categories: Option<&CategoryIndex>,
        db_keyword_markers: Option<&KeywordMarkers>,
    ) -> (r: ViewerLine)
        requires
            db_categories matches Some(c) ==> c.wf(),
            db_keyword_markers matches Some(m) ==> m.wf(),
        ensures
            (final(self).active_range, r@) == viewer_step(
                old(self).active_range,
                line@,
                match db_categories {
                    Some(c) => Some(c@),
                    None => None,
                },
                match db_keyword_markers {
                    Some(m) => Some(m@),
                    None => None,
                },
            ),
    {
        if self.active_range == Some(RangeBlockKind::DebugSystem) && !text_starts_with(
            line,
            "    ",
        ) {
            self.active_range = None;
        }
        if self.active_range.is_none() {
            self.active_range = detect_range_block_start(line);
        }
        let timestamp = Self::line_timestamp(patterns, line);
        let level = if self.active_range == Some(RangeBlockKind::DebugSystem) {
            owned("debug")
        } else {
            classify_log_level(line)
        };
        let marker: Option<&DbKeywordMarker> = if timestamp.as_str().is_empty() {
            None
        } else {
            match db_keyword_markers {
                Some(m) => resolve_db_keyword_marker(line, m),
                None => None,
            }
        };
        let category = match self.active_range {
            Some(k) => range_block_category(k),
            None => match marker {
                Some(m) => m.category.clone(),
                None => match db_categories {
                    Some(c) => match resolve_db_category(patterns, line, timestamp.as_str(), c) {
                        Some(x) => x,
                        None => owned("plain"),
                    },
                    None => owned("plain"),
                },
            },
        };
        let highlight = match marker {
            Some(m) => Some(m.text.clone()),
            None => None,
        };
        if self.active_range == Some(RangeBlockKind::Notification) && char_contains(line, '>') {
            self.active_range = None;
        }
        ViewerLine {
            timestamp,
            level: encode_log_level_u8(level.as_str()),
            category: encode_log_category_u8(category.as_str()),
            raw_line: owned(line),
            highlight,
        }
    }
}

} // verus!
