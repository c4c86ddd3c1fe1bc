use stella_record::models::LogViewerChunk;
use stella_record::patterns::LogPatterns;
use stella_record::stream::{build_keyword_markers, ChunkBuilder};
use stella_record::viewer::{
    classify_log_level, encode_log_category_u8, encode_log_level_u8, CategoryIndex,
    KeywordMarkers, LogViewerState, ViewerLine,
};

fn rows(pairs: &[(&str, &str)]) -> Vec<(String, String)> {
    pairs
        .iter()
        .map(|(a, b)| (a.to_string(), b.to_string()))
        .collect()
}

#[test]
fn level_and_category_codes() {
    assert_eq!(encode_log_level_u8("info"), 1);
    assert_eq!(encode_log_level_u8("warning"), 2);
    assert_eq!(encode_log_level_u8("error"), 3);
    assert_eq!(encode_log_level_u8("debug"), 4);
    assert_eq!(encode_log_level_u8("plain"), 0);
    assert_eq!(encode_log_category_u8("world"), 1);
    assert_eq!(encode_log_category_u8("notification"), 2);
    assert_eq!(encode_log_category_u8("player_join"), 3);
    assert_eq!(encode_log_category_u8("player_ready"), 4);
    assert_eq!(encode_log_category_u8("player_left"), 5);
    assert_eq!(encode_log_category_u8("debug-system"), 6);
    assert_eq!(encode_log_category_u8("video"), 7);
    assert_eq!(encode_log_category_u8("other"), 0);
}

#[test]
fn levels_from_line_text() {
    assert_eq!(classify_log_level("2025.01.01 00:00:00 Error      -  boom"), "error");
    assert_eq!(classify_log_level("x Warning y"), "warning");
    assert_eq!(classify_log_level("2025.01.01 00:00:00 Debug      -  x"), "debug");
    assert_eq!(classify_log_level("[UserInfoLogger] Environment Info:"), "debug");
    assert_eq!(classify_log_level("2025.01.01 00:00:00 Log        -  x"), "plain");
}

#[test]
fn repeated_markers_are_dropped_even_when_not_adjacent() {
    let markers = build_keyword_markers(&rows(&[
        ("Alpha", "world"),
        ("Gamma", "world"),
        ("Alpha", "world"),
        ("Alpha", "player_join"),
    ]));
    let got: Vec<(&str, &str)> = markers
        .iter()
        .map(|m| (m.text.as_str(), m.category.as_str()))
        .collect();
    assert_eq!(
        got,
        vec![("Alpha", "world"), ("Gamma", "world"), ("Alpha", "player_join")]
    );
}

#[test]
fn markers_are_trimmed_filtered_sorted_and_deduplicated() {
    let markers = build_keyword_markers(&rows(&[
        ("Bob", "player_join"),
        ("  W  ", "world"),
        (" Long World ", "world"),
        ("Alice", "player_join"),
        ("Alice", "player_join"),
        ("あ", "notification"),
    ]));
    let got: Vec<(&str, &str)> = markers
        .iter()
        .map(|m| (m.text.as_str(), m.category.as_str()))
        .collect();
    assert_eq!(
        got,
        vec![
            ("Long World", "world"),
            ("Alice", "player_join"),
            ("Bob", "player_join"),
            ("あ", "notification"),
        ]
    );
}

#[test]
fn lines_take_categories_from_database_hints() {
    let patterns = LogPatterns::new().unwrap();
    let index = CategoryIndex::from_rows(rows(&[
        ("2025-01-02 03:04:05", "world"),
        ("2025-01-02 03:04:05", "player_join"),
    ]));
    let markers = KeywordMarkers::new(build_keyword_markers(&rows(&[(
        "Great World",
        "world",
    )])));
    let mut state = LogViewerState::new();

    let joined = state.classify_line(
        &patterns,
        "2025.01.02 03:04:05 Log        -  [Behaviour] OnPlayerJoined Alice (usr_1234)",
        Some(&index),
        Some(&markers),
    );
    assert_eq!(joined.timestamp, "2025-01-02 03:04:05");
    assert_eq!(joined.level, 0);
    assert_eq!(joined.category, 3);
    assert_eq!(joined.highlight, None);

    let entering = state.classify_line(
        &patterns,
        "2025.01.02 03:04:05 Log        -  [Behaviour] Entering Room: Great World",
        Some(&index),
        Some(&markers),
    );
    assert_eq!(entering.category, 1);
    assert_eq!(entering.highlight, Some("Great World".to_string()));

    let ready = state.classify_line(
        &patterns,
        "2025.01.02 03:04:05 Log        -  [Behaviour] OnPlayerJoinComplete Alice",
        Some(&index),
        None,
    );
    assert_eq!(ready.category, 4);

    let untimed = state.classify_line(&patterns, "no timestamp Great World", Some(&index), Some(&markers));
    assert_eq!(untimed.timestamp, "");
    assert_eq!(untimed.category, 0);
    assert_eq!(untimed.highlight, None);
}

#[test]
fn debug_blocks_cover_their_indented_lines() {
    let patterns = LogPatterns::new().unwrap();
    let mut state = LogViewerState::new();
    let first = state.classify_line(
        &patterns,
        "2025.01.02 03:04:05 Log        -  [UserInfoLogger] Environment Info:",
        None,
        None,
    );
    assert_eq!((first.level, first.category), (4, 6));
    let inner = state.classify_line(&patterns, "    Processor: x", None, None);
    assert_eq!((inner.level, inner.category), (4, 6));
    let after = state.classify_line(&patterns, "2025.01.02 03:04:06 Log        -  x", None, None);
    assert_eq!((after.level, after.category), (0, 0));
}

#[test]
fn multiline_notifications_end_at_the_closing_bracket() {
    let patterns = LogPatterns::new().unwrap();
    let mut state = LogViewerState::new();
    let a = state.classify_line(
        &patterns,
        "2025.01.02 03:04:05 Log        -  Received Notification: <Notification from username:A",
        None,
        None,
    );
    let b = state.classify_line(&patterns, "second part", None, None);
    let c = state.classify_line(&patterns, "end >", None, None);
    let d = state.classify_line(&patterns, "after", None, None);
    assert_eq!((a.category, b.category, c.category, d.category), (2, 2, 2, 0));
}

fn line(i: usize) -> ViewerLine {
    ViewerLine {
        timestamp: format!("t{i}"),
        level: (i % 5) as u8,
        category: (i % 8) as u8,
        raw_line: format!("line {i}"),
        highlight: if i % 2 == 0 { Some(format!("h{i}")) } else { None },
    }
}

#[test]
fn chunks_carry_every_line_once_in_order() {
    let mut b = ChunkBuilder::new("s1".to_string());
    let mut chunks: Vec<LogViewerChunk> = Vec::new();
    for i in 0..1203 {
        if let Some(c) = b.push(line(i)) {
            chunks.push(c);
        }
    }
    if let Some(c) = b.finish() {
        chunks.push(c);
    }
    assert_eq!(
        chunks.iter().map(|c| c.raw_lines.len()).collect::<Vec<_>>(),
        vec![500, 500, 203]
    );
    let all: Vec<String> = chunks.iter().flat_map(|c| c.raw_lines.clone()).collect();
    let expected: Vec<String> = (0..1203).map(|i| format!("line {i}")).collect();
    assert_eq!(all, expected);
    assert!(chunks.iter().all(|c| c.session_id == "s1"));
    assert_eq!(chunks[2].timestamps[0], "t1000");
    assert_eq!(chunks[2].highlights[0], Some("h1000".to_string()));
    assert_eq!(chunks[2].highlights[1], None);
    assert!(b.finish().is_none());
}
