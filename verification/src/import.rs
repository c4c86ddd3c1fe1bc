//! The line-by-line state machine that turns one VRChat log into database
//! writes.
//!
//! The machine decides; the caller performs.  For each line it hands back the
//! writes to make, in order, and the caller executes them inside the file's
//! savepoint.  After executing [`DbAction::InsertVisit`] the caller reports
//! the new row id with [`ImportState::visit_inserted`].
use vstd::prelude::*;

use crate::datetime::{datetime_text, parsed_datetime, reformat_timestamp};
use crate::parser::{
    access_type_of, empty_location, is_collectible_kind, is_collectible_notification,
    location_of, parse_access_type, parse_location, ParsedLocation, ParsedLocationView,
};
use crate::patterns::{
    capture_group, group, groups_view, opt_view, regex_captures, LogPatterns, RE_ENTERING,
    RE_IS_LOCAL, RE_JOINING, RE_LEFT_ROOM, RE_NOTIFICATION, RE_NOTIFICATION_WORLD_ID,
    RE_NOTIFICATION_WORLD_NAME, RE_OSC_FOUND, RE_PLAYER_JOIN, RE_PLAYER_LEFT, RE_SCREENSHOT,
    RE_SUBSCRIPTION_STATUS, RE_TIME, RE_USER_AUTH,
};
use crate::text::{
    concat3, decimal, eq_ignore_ascii_case, has_prefix_ignore_ascii_case, owned, parse_i64,
    parsed_i64, push_str, str_eq, trim, trimmed, u64_text,
};

verus! {

/// The message an import that was deliberately cancelled returns.
pub const ANALYZE_CANCELED_MESSAGE: &'static str = "解析を中断しました。変更はロールバックされました。";

/// The form of the timestamp at the start of a log line.
pub const LOG_TIME_FORMAT: &'static str = "%Y.%m.%d %H:%M:%S";

/// The form of the creation time of a notification.
pub const NOTIFICATION_TIME_FORMAT: &'static str = "%m/%d/%Y %H:%M:%S UTC";

/// How many lines pass between two progress reports.
pub const PROGRESS_INTERVAL: u64 = 5000;

/// One write to the main database.
pub enum DbAction {
    /// Close the visit and every presence in it that has no leave time yet.
    CloseVisit { visit_id: i64, leave_time: String },
    /// Insert a world visit of the current session.  The caller reports the
    /// new row id with [`ImportState::visit_inserted`].
    InsertVisit {
        world_name: String,
        instance_id: String,
        instance_type: Option<String>,
        region: Option<String>,
        join_time: String,
    },
    /// Insert the user, or update the display name of a known one.
    UpsertUser { user_id: String, display_name: String },
    /// Record that a user is present in a visit (ignored when already recorded).
    InsertWithUser { visit_id: i64, user_id: String, join_time: String },
    /// Record when a user left a visit.
    MarkUserLeft { visit_id: i64, user_id: String, leave_time: String },
    /// Mark the users with this display name as the local player in a visit.
    MarkSelf { visit_id: i64, display_name: String },
    /// Insert a screenshot.
    InsertScreenshot {
        visit_id: Option<i64>,
        file_path: String,
        width: Option<i64>,
        height: Option<i64>,
        timestamp: String,
    },
    /// Insert a discovered OSC service of the current session.
    InsertOsc {
        service_name: Option<String>,
        ip_address: Option<String>,
        port: Option<i64>,
        timestamp: String,
    },
    /// Insert a notification of the current session (ignored when its id is known).
    InsertNotification {
        notif_id: Option<String>,
        notif_type: String,
        sender_user_id: Option<String>,
        sender_name: Option<String>,
        message: Option<String>,
        created_at: Option<String>,
        received_at: String,
        target_world_name: Option<String>,
        target: ParsedLocation,
    },
    /// Insert the subscription state of the current session (ignored when known).
    InsertSubscription {
        is_active: bool,
        subscription_id: Option<String>,
        description: Option<String>,
        checked_at: String,
    },
    /// Write the session's times and account.
    UpdateSession {
        log_name: String,
        start_time: String,
        end_time: Option<String>,
        account_id: Option<String>,
        account_name: Option<String>,
    },
}

/// A database write with its strings as character sequences.
pub enum DbActionView {
    CloseVisit { visit_id: i64, leave_time: Seq<char> },
    InsertVisit {
        world_name: Seq<char>,
        instance_id: Seq<char>,
        instance_type: Option<Seq<char>>,
        region: Option<Seq<char>>,
        join_time: Seq<char>,
    },
    UpsertUser { user_id: Seq<char>, display_name: Seq<char> },
    InsertWithUser { visit_id: i64, user_id: Seq<char>, join_time: Seq<char> },
    MarkUserLeft { visit_id: i64, user_id: Seq<char>, leave_time: Seq<char> },
    MarkSelf { visit_id: i64, display_name: Seq<char> },
    InsertScreenshot {
        visit_id: Option<i64>,
        file_path: Seq<char>,
        width: Option<i64>,
        height: Option<i64>,
        timestamp: Seq<char>,
    },
    InsertOsc {
        service_name: Option<Seq<char>>,
        ip_address: Option<Seq<char>>,
        port: Option<i64>,
        timestamp: Seq<char>,
    },
    InsertNotification {
        notif_id: Option<Seq<char>>,
        notif_type: Seq<char>,
        sender_user_id: Option<Seq<char>>,
        sender_name: Option<Seq<char>>,
        message: Option<Seq<char>>,
        created_at: Option<Seq<char>>,
        received_at: Seq<char>,
        target_world_name: Option<Seq<char>>,
        target: ParsedLocationView,
    },
    InsertSubscription {
        is_active: bool,
        subscription_id: Option<Seq<char>>,
        description: Option<Seq<char>>,
        checked_at: Seq<char>,
    },
    UpdateSession {
        log_name: Seq<char>,
        start_time: Seq<char>,
        end_time: Option<Seq<char>>,
        account_id: Option<Seq<char>>,
        account_name: Option<Seq<char>>,
    },
}

impl DbAction {
    /// The write with its strings as character sequences.
    pub open spec fn view(&self) -> DbActionView {
        match self {
            DbAction::CloseVisit { visit_id, leave_time } => DbActionView::CloseVisit {
                visit_id: *visit_id,
                leave_time: leave_time@,
            },
            DbAction::InsertVisit { world_name, instance_id, instance_type, region, join_time } =>
            DbActionView::InsertVisit {
                world_name: world_name@,
                instance_id: instance_id@,
                instance_type: opt_view(*instance_type),
                region: opt_view(*region),
                join_time: join_time@,
            },
            DbAction::UpsertUser { user_id, display_name } => DbActionView::UpsertUser {
                user_id: user_id@,
                display_name: display_name@,
            },
            DbAction::InsertWithUser { visit_id, user_id, join_time } =>
            DbActionView::InsertWithUser {
                visit_id: *visit_id,
                user_id: user_id@,
                join_time: join_time@,
            },
            DbAction::MarkUserLeft { visit_id, user_id, leave_time } =>
            DbActionView::MarkUserLeft {
                visit_id: *visit_id,
                user_id: user_id@,
                leave_time: leave_time@,
            },
            DbAction::MarkSelf { visit_id, display_name } => DbActionView::MarkSelf {
                visit_id: *visit_id,
                display_name: display_name@,
            },
            DbAction::InsertScreenshot { visit_id, file_path, width, height, timestamp } =>
            DbActionView::InsertScreenshot {
                visit_id: *visit_id,
                file_path: file_path@,
                width: *width,
                height: *height,
                timestamp: timestamp@,
            },
            DbAction::InsertOsc { service_name, ip_address, port, timestamp } =>
            DbActionView::InsertOsc {
                service_name: opt_view(*service_name),
                ip_address: opt_view(*ip_address),
                port: *port,
                timestamp: timestamp@,
            },
            DbAction::InsertNotification {
                notif_id,
                notif_type,
                sender_user_id,
                sender_name,
                message,
                created_at,
                received_at,
                target_world_name,
                target,
            } => DbActionView::InsertNotification {
                notif_id: opt_view(*notif_id),
                notif_type: notif_type@,
                sender_user_id: opt_view(*sender_user_id),
                sender_name: opt_view(*sender_name),
                message: opt_view(*message),
                created_at: opt_view(*created_at),
                received_at: received_at@,
                target_world_name: opt_view(*target_world_name),
                target: target@,
            },
            DbAction::InsertSubscription { is_active, subscription_id, description, checked_at } =>
            DbActionView::InsertSubscription {
                is_active: *is_active,
                subscription_id: opt_view(*subscription_id),
                description: opt_view(*description),
                checked_at: checked_at@,
            },
            DbAction::UpdateSession { log_name, start_time, end_time, account_id, account_name } =>
            DbActionView::UpdateSession {
                log_name: log_name@,
                start_time: start_time@,
                end_time: opt_view(*end_time),
                account_id: opt_view(*account_id),
                account_name: opt_view(*account_name),
            },
        }
    }
}

/// The views of a sequence of writes.
pub open spec fn actions_view(v: Seq<DbAction>) -> Seq<DbActionView> {
    v.map_values(|a: DbAction| a@)
}

/// The state of the machine between two lines of one log.
pub struct ImportState {
    filename: String,
    start_time: Option<String>,
    end_time: Option<String>,
    my_user_id: Option<String>,
    my_display_name: Option<String>,
    current_ts: Option<String>,
    current_visit_id: Option<i64>,
    pending_room_name: Option<String>,
    line_count: u64,
}

/// The state with its strings as character sequences.
pub struct ImportStateView {
    /// The log's name, which identifies its session.
    pub filename: Seq<char>,
    /// The first timestamp seen, in the database form.
    pub start_time: Option<Seq<char>>,
    /// The last timestamp seen, in the database form.
    pub end_time: Option<Seq<char>>,
    /// The local user's id.
    pub my_user_id: Option<Seq<char>>,
    /// The local user's display name.
    pub my_display_name: Option<Seq<char>>,
    /// The timestamp of the latest line that had one.
    pub current_ts: Option<Seq<char>>,
    /// The visit in progress.
    pub current_visit_id: Option<i64>,
    /// The world entered but not yet joined.
    pub pending_room_name: Option<Seq<char>>,
    /// How many lines have been read.
    pub line_count: u64,
}

/// What one line produces.
pub struct LineOutcome {
    /// The writes to perform, in order.
    pub actions: Vec<DbAction>,
    /// A progress report, every [`PROGRESS_INTERVAL`] lines.
    pub progress: Option<String>,
    /// A warning to log.
    pub warning: Option<String>,
}

/// What one line produces, as character sequences.
pub struct LineOutcomeView {
    pub actions: Seq<DbActionView>,
    pub progress: Option<Seq<char>>,
    pub warning: Option<Seq<char>>,
}

impl LineOutcome {
    /// The outcome as character sequences.
    pub open spec fn view(&self) -> LineOutcomeView {
        LineOutcomeView {
            actions: actions_view(self.actions@),
            progress: opt_view(self.progress),
            warning: opt_view(self.warning),
        }
    }
}

/// The state at the start of a log.
pub open spec fn initial_state(filename: Seq<char>) -> ImportStateView {
    ImportStateView {
        filename,
        start_time: None,
        end_time: None,
        my_user_id: None,
        my_display_name: None,
        current_ts: None,
        current_visit_id: None,
        pending_room_name: None,
        line_count: 0,
    }
}

/// The text of an optional string, or the empty text.
pub open spec fn or_empty(o: Option<Seq<char>>) -> Seq<char> {
    match o {
        Some(s) => s,
        None => Seq::empty(),
    }
}

/// `None` for the empty text.
pub open spec fn non_empty(o: Option<Seq<char>>) -> Option<Seq<char>> {
    match o {
        Some(s) => if s.len() == 0 {
            None
        } else {
            Some(s)
        },
        None => None,
    }
}

/// The integer written in an optional capture.
pub open spec fn opt_int(o: Option<Seq<char>>) -> Option<i64> {
    match o {
        Some(s) => parsed_i64(s),
        None => None,
    }
}

/// The progress report after `count` lines.
pub open spec fn progress_text(count: nat) -> Seq<char> {
    "パース中... "@ + decimal(count) + " 行"@
}

/// The line counter and its report.
pub open spec fn count_step(s: ImportStateView) -> (ImportStateView, Option<Seq<char>>) {
    let n = if s.line_count < u64::MAX {
        (s.line_count + 1) as u64
    } else {
        s.line_count
    };
    (ImportStateView { line_count: n, ..s }, if n % PROGRESS_INTERVAL == 0 {
        Some(progress_text(n as nat))
    } else {
        None
    })
}

/// The timestamp of a line: the state it leaves, the warning it raises, and
/// whether the rest of the line is skipped.
pub open spec fn time_step(s: ImportStateView, line: Seq<char>) -> (
    ImportStateView,
    Option<Seq<char>>,
    bool,
) {
    let caps = regex_captures(RE_TIME@, line);
    if caps is None {
        (s, None, false)
    } else {
        match group(caps, 1) {
            None => (s, None, true),
            Some(ts) => match parsed_datetime(ts, LOG_TIME_FORMAT@) {
                Some(p) => {
                    let f = datetime_text(p);
                    (
                        ImportStateView {
                            current_ts: Some(f),
                            start_time: if s.start_time is None {
                                Some(f)
                            } else {
                                s.start_time
                            },
                            end_time: Some(f),
                            ..s
                        },
                        None,
                        false,
                    )
                },
                None => (s, Some("timestamp parse skipped ["@ + s.filename + "]: "@ + ts), false),
            },
        }
    }
}

/// The writes that close the visit in progress, if any.
pub open spec fn close_current(s: ImportStateView, ts: Seq<char>) -> Seq<DbActionView> {
    match s.current_visit_id {
        Some(v) => seq![DbActionView::CloseVisit { visit_id: v, leave_time: ts }],
        None => seq![],
    }
}

/// An authenticated-user line: the first one names the local user.
pub open spec fn on_user_auth(s: ImportStateView, line: Seq<char>) -> Option<
    (ImportStateView, Seq<DbActionView>),
> {
    let caps = regex_captures(RE_USER_AUTH@, line);
    if caps is None {
        None
    } else if s.my_display_name is None && group(caps, 1) is Some && group(caps, 2) is Some {
        Some(
            (
                ImportStateView {
                    my_display_name: group(caps, 1),
                    my_user_id: group(caps, 2),
                    ..s
                },
                seq![],
            ),
        )
    } else {
        Some((s, seq![]))
    }
}

/// An entering-room line: the visit in progress ends and the world name waits
/// for its join line.
pub open spec fn on_entering(s: ImportStateView, line: Seq<char>, ts: Seq<char>) -> Option<
    (ImportStateView, Seq<DbActionView>),
> {
    let caps = regex_captures(RE_ENTERING@, line);
    if caps is None {
        None
    } else {
        Some(
            (
                ImportStateView {
                    pending_room_name: if group(caps, 1) is Some {
                        group(caps, 1)
                    } else {
                        s.pending_room_name
                    },
                    current_visit_id: None,
                    ..s
                },
                close_current(s, ts),
            ),
        )
    }
}

/// A joining line: with a world name waiting, a visit starts.
pub open spec fn on_joining(s: ImportStateView, line: Seq<char>, ts: Seq<char>) -> Option<
    (ImportStateView, Seq<DbActionView>),
> {
    let caps = regex_captures(RE_JOINING@, line);
    if caps is None {
        None
    } else {
        match s.pending_room_name {
            None => Some((s, seq![])),
            Some(room) => match group(caps, 3) {
                None => Some((s, seq![])),
                Some(access) => Some(
                    (
                        ImportStateView { current_visit_id: None, pending_room_name: None, ..s },
                        seq![
                            DbActionView::InsertVisit {
                                world_name: room,
                                instance_id: or_empty(group(caps, 2)),
                                instance_type: access_type_of(trimmed(access)),
                                region: group(caps, 4),
                                join_time: ts,
                            },
                        ],
                    ),
                ),
            },
        }
    }
}

/// A room-left line: the visit in progress ends.
pub open spec fn on_left_room(s: ImportStateView, line: Seq<char>, ts: Seq<char>) -> Option<
    (ImportStateView, Seq<DbActionView>),
> {
    if regex_captures(RE_LEFT_ROOM@, line) is None {
        None
    } else {
        match s.current_visit_id {
            Some(v) => Some(
                (
                    ImportStateView { current_visit_id: None, pending_room_name: None, ..s },
                    seq![DbActionView::CloseVisit { visit_id: v, leave_time: ts }],
                ),
            ),
            None => Some((s, seq![])),
        }
    }
}

/// A player-joined line: the user is recorded, and as present in the visit.
pub open spec fn on_player_join(s: ImportStateView, line: Seq<char>, ts: Seq<char>) -> Option<
    (ImportStateView, Seq<DbActionView>),
> {
    let caps = regex_captures(RE_PLAYER_JOIN@, line);
    if caps is None {
        None
    } else {
        match (group(caps, 1), group(caps, 2)) {
            (Some(d), Some(u)) => Some(
                (
                    s,
                    seq![DbActionView::UpsertUser { user_id: u, display_name: d }] + match s.current_visit_id {
                        Some(v) => seq![
                            DbActionView::InsertWithUser { visit_id: v, user_id: u, join_time: ts },
                        ],
                        None => seq![],
                    },
                ),
            ),
            _ => Some((s, seq![])),
        }
    }
}

/// A player-left line: the user's presence in the visit ends.
pub open spec fn on_player_left(s: ImportStateView, line: Seq<char>, ts: Seq<char>) -> Option<
    (ImportStateView, Seq<DbActionView>),
> {
    let caps = regex_captures(RE_PLAYER_LEFT@, line);
    if caps is None {
        None
    } else {
        match (group(caps, 2), s.current_visit_id) {
            (Some(u), Some(v)) => Some(
                (
                    s,
                    seq![DbActionView::MarkUserLeft { visit_id: v, user_id: u, leave_time: ts }],
                ),
            ),
            _ => Some((s, seq![])),
        }
    }
}

/// A local/remote classification line: a local player names the local user
/// (unless known by another name than the placeholder) and is marked in the
/// visit.
pub open spec fn on_is_local(s: ImportStateView, line: Seq<char>) -> Option<
    (ImportStateView, Seq<DbActionView>),
> {
    let caps = regex_captures(RE_IS_LOCAL@, line);
    if caps is None {
        None
    } else {
        match (group(caps, 1), group(caps, 2)) {
            (Some(d), Some(loc)) => if loc == "local"@ {
                Some(
                    (
                        ImportStateView {
                            my_display_name: if s.my_display_name is None || s.my_display_name
                                == Some("[LocalPlayer]"@) {
                                Some(d)
                            } else {
                                s.my_display_name
                            },
                            ..s
                        },
                        match s.current_visit_id {
                            Some(v) => seq![DbActionView::MarkSelf { visit_id: v, display_name: d }],
                            None => seq![],
                        },
                    ),
                )
            } else {
                Some((s, seq![]))
            },
            _ => Some((s, seq![])),
        }
    }
}

/// A screenshot line.
pub open spec fn on_screenshot(s: ImportStateView, line: Seq<char>, ts: Seq<char>) -> Option<
    (ImportStateView, Seq<DbActionView>),
> {
    let caps = regex_captures(RE_SCREENSHOT@, line);
    if caps is None {
        None
    } else {
        match group(caps, 1) {
            Some(path) => Some(
                (
                    s,
                    seq![
                        DbActionView::InsertScreenshot {
                            visit_id: s.current_visit_id,
                            file_path: path,
                            width: opt_int(group(caps, 2)),
                            height: opt_int(group(caps, 3)),
                            timestamp: ts,
                        },
                    ],
                ),
            ),
            None => Some((s, seq![])),
        }
    }
}

/// An OSC service line.
pub open spec fn on_osc(s: ImportStateView, line: Seq<char>, ts: Seq<char>) -> Option<
    (ImportStateView, Seq<DbActionView>),
> {
    let caps = regex_captures(RE_OSC_FOUND@, line);
    if caps is None {
        None
    } else {
        Some(
            (
                s,
                seq![
                    DbActionView::InsertOsc {
                        service_name: group(caps, 1),
                        ip_address: group(caps, 2),
                        port: opt_int(group(caps, 3)),
                        timestamp: ts,
                    },
                ],
            ),
        )
    }
}

/// A notification line: kept when its kind is collected.
pub open spec fn on_notification(s: ImportStateView, line: Seq<char>, ts: Seq<char>) -> Option<
    (ImportStateView, Seq<DbActionView>),
> {
    let caps = regex_captures(RE_NOTIFICATION@, line);
    if caps is None {
        None
    } else {
        match group(caps, 3) {
            None => Some((s, seq![])),
            Some(t) => {
                let kind = trimmed(t);
                if !is_collectible_kind(kind) {
                    Some((s, seq![]))
                } else {
                    match group(caps, 5) {
                        None => Some((s, seq![])),
                        Some(created) => Some(
                            (
                                s,
                                seq![
                                    DbActionView::InsertNotification {
                                        notif_id: group(caps, 4),
                                        notif_type: kind,
                                        sender_user_id: non_empty(group(caps, 2)),
                                        sender_name: non_empty(group(caps, 1)),
                                        message: group(caps, 6),
                                        created_at: match parsed_datetime(
                                            trimmed(created),
                                            NOTIFICATION_TIME_FORMAT@,
                                        ) {
                                            Some(p) => Some(datetime_text(p)),
                                            None => None,
                                        },
                                        received_at: ts,
                                        target_world_name: group(
                                            regex_captures(RE_NOTIFICATION_WORLD_NAME@, line),
                                            1,
                                        ),
                                        target: match group(
                                            regex_captures(RE_NOTIFICATION_WORLD_ID@, line),
                                            1,
                                        ) {
                                            Some(w) => location_of(w),
                                            None => empty_location(),
                                        },
                                    },
                                ],
                            ),
                        ),
                    }
                }
            },
        }
    }
}

/// A subscription line.
pub open spec fn on_subscription(s: ImportStateView, line: Seq<char>, ts: Seq<char>) -> Option<
    (ImportStateView, Seq<DbActionView>),
> {
    let caps = regex_captures(RE_SUBSCRIPTION_STATUS@, line);
    if caps is None {
        None
    } else {
        let id = or_empty(group(caps, 1));
        let active = or_empty(group(caps, 2));
        let desc = or_empty(group(caps, 3));
        Some(
            (
                s,
                seq![
                    DbActionView::InsertSubscription {
                        is_active: active.len() == 4 && has_prefix_ignore_ascii_case(
                            active,
                            "true"@,
                        ),
                        subscription_id: if id.len() == 0 || id == "None"@ {
                            None
                        } else {
                            Some(id)
                        },
                        description: if desc.len() == 0 {
                            None
                        } else {
                            Some(desc)
                        },
                        checked_at: ts,
                    },
                ],
            ),
        )
    }
}

/// The events of a line, tried in order; the first kind that matches decides.
pub open spec fn event_step(s: ImportStateView, line: Seq<char>, ts: Seq<char>) -> (
    ImportStateView,
    Seq<DbActionView>,
) {
    if on_user_auth(s, line) is Some {
        on_user_auth(s, line).unwrap()
    } else if on_entering(s, line, ts) is Some {
        on_entering(s, line, ts).unwrap()
    } else if on_joining(s, line, ts) is Some {
        on_joining(s, line, ts).unwrap()
    } else if on_left_room(s, line, ts) is Some {
        on_left_room(s, line, ts).unwrap()
    } else if on_player_join(s, line, ts) is Some {
        on_player_join(s, line, ts).unwrap()
    } else if on_player_left(s, line, ts) is Some {
        on_player_left(s, line, ts).unwrap()
    } else if on_is_local(s, line) is Some {
        on_is_local(s, line).unwrap()
    } else if on_screenshot(s, line, ts) is Some {
        on_screenshot(s, line, ts).unwrap()
    } else if on_osc(s, line, ts) is Some {
        on_osc(s, line, ts).unwrap()
    } else if on_notification(s, line, ts) is Some {
        on_notification(s, line, ts).unwrap()
    } else if on_subscription(s, line, ts) is Some {
        on_subscription(s, line, ts).unwrap()
    } else {
        (s, seq![])
    }
}

/// One line of the log: the state it leaves and what it produces.
pub open spec fn line_step(s: ImportStateView, line: Seq<char>) -> (ImportStateView, LineOutcomeView) {
    let (s1, progress) = count_step(s);
    let (s2, warning, skip) = time_step(s1, line);
    if skip {
        (s2, LineOutcomeView { actions: seq![], progress, warning })
    } else {
        let (s3, actions) = event_step(s2, line, or_empty(s2.current_ts));
        (s3, LineOutcomeView { actions, progress, warning })
    }
}

/// The writes at the end of a log: the visit in progress ends at the last
/// timestamp, and the session gets its times and account.
pub open spec fn finish_actions(s: ImportStateView) -> Seq<DbActionView> {
    close_current(s, or_empty(s.current_ts)) + seq![
        DbActionView::UpdateSession {
            log_name: s.filename,
            start_time: or_empty(s.start_time),
            end_time: s.end_time,
            account_id: s.my_user_id,
            account_name: s.my_display_name,
        },
    ]
}

/// The session's start time is the first timestamp read: once known, no
/// line changes it.
pub proof fn law_start_time_is_first(s: ImportStateView, line: Seq<char>)
    requires
        s.start_time is Some,
    ensures
        line_step(s, line).0.start_time == s.start_time,
{
}

/// A line with a timestamp that chrono reads becomes the current time and the
/// session's end time.
pub proof fn law_timestamp_moves_end_time(s: ImportStateView, line: Seq<char>, p: crate::datetime::DateTimeParts)
    requires
        group(regex_captures(RE_TIME@, line), 1) matches Some(ts) && parsed_datetime(ts, LOG_TIME_FORMAT@) == Some(p),
    ensures
        line_step(s, line).0.end_time == Some(datetime_text(p)),
        line_step(s, line).0.current_ts == Some(datetime_text(p)),
{
}

/// Only the authenticated-user and local-player lines name the local user,
/// and once a display name other than the placeholder is known no line
/// changes it.
pub proof fn law_account_name_is_stable(s: ImportStateView, line: Seq<char>)
    requires
        s.my_display_name is Some,
        s.my_display_name != Some("[LocalPlayer]"@),
    ensures
        line_step(s, line).0.my_display_name == s.my_display_name,
        line_step(s, line).0.my_user_id == s.my_user_id,
{
}

/// Entering a room ends the visit in progress, whose leave time is the line's
/// time, and no visit is in progress afterwards.
pub proof fn law_entering_closes_visit(s: ImportStateView, line: Seq<char>, v: i64)
    requires
        s.current_visit_id == Some(v),
        regex_captures(RE_TIME@, line) is None,
        regex_captures(RE_USER_AUTH@, line) is None,
        regex_captures(RE_ENTERING@, line) is Some,
    ensures
        line_step(s, line).0.current_visit_id is None,
        line_step(s, line).1.actions == seq![
            DbActionView::CloseVisit { visit_id: v, leave_time: or_empty(s.current_ts) },
        ],
{
}

/// A join line starts a visit only when a world name waits for it, and then
/// no visit is in progress until its row id is reported.
pub proof fn law_join_needs_room(s: ImportStateView, line: Seq<char>)
    ensures
        ({
            let (t, o) = line_step(s, line);
            forall|i: int| 0 <= i < o.actions.len() && #[trigger] o.actions[i] is InsertVisit ==> s.pending_room_name is Some && t.current_visit_id is None && t.pending_room_name is None
        }),
{
}

/// Whether the line's timestamp part leaves the line to be read: it has no
/// timestamp, or one whose text is captured.
pub open spec fn read_past_time(line: Seq<char>) -> bool {
    regex_captures(RE_TIME@, line) is None || group(regex_captures(RE_TIME@, line), 1) is Some
}

/// A screenshot's size is read from its file name: for a file named
/// `..._<W>x<H>.<ext>`, the width is the number `W` before the `x` and the
/// height the number `H` after it.
pub proof fn law_screenshot_size_from_name(
    s: ImportStateView,
    line: Seq<char>,
    stem: Seq<char>,
    w: Seq<char>,
    h: Seq<char>,
    ext: Seq<char>,
)
    requires
        read_past_time(line),
        regex_captures(RE_USER_AUTH@, line) is None,
        regex_captures(RE_ENTERING@, line) is None,
        regex_captures(RE_JOINING@, line) is None,
        regex_captures(RE_LEFT_ROOM@, line) is None,
        regex_captures(RE_PLAYER_JOIN@, line) is None,
        regex_captures(RE_PLAYER_LEFT@, line) is None,
        regex_captures(RE_IS_LOCAL@, line) is None,
        group(regex_captures(RE_SCREENSHOT@, line), 1) == Some(
            stem + "_"@ + w + "x"@ + h + "."@ + ext,
        ),
        group(regex_captures(RE_SCREENSHOT@, line), 2) == Some(w),
        group(regex_captures(RE_SCREENSHOT@, line), 3) == Some(h),
    ensures
        ({
            let acts = line_step(s, line).1.actions;
            &&& acts.len() == 1
            &&& acts[0] matches DbActionView::InsertScreenshot {
                visit_id,
                file_path,
                width,
                height,
                ..
            }
            &&& visit_id == s.current_visit_id
            &&& file_path == stem + "_"@ + w + "x"@ + h + "."@ + ext
            &&& width == parsed_i64(w)
            &&& height == parsed_i64(h)
        }),
{
}

/// A player's departure closes the presence its arrival opened: in a visit,
/// an `OnPlayerJoined` line for user id `u` records `u` as present, and a
/// later `OnPlayerLeft` line naming the same user id `u` in parentheses marks
/// that same user id as gone from the same visit, whatever display name it
/// shows.
pub proof fn law_leave_closes_joined_presence(
    s: ImportStateView,
    join_line: Seq<char>,
    left_line: Seq<char>,
    d: Seq<char>,
    u: Seq<char>,
    v: i64,
)
    requires
        s.current_visit_id == Some(v),
        read_past_time(join_line),
        regex_captures(RE_USER_AUTH@, join_line) is None,
        regex_captures(RE_ENTERING@, join_line) is None,
        regex_captures(RE_JOINING@, join_line) is None,
        regex_captures(RE_LEFT_ROOM@, join_line) is None,
        group(regex_captures(RE_PLAYER_JOIN@, join_line), 1) == Some(d),
        group(regex_captures(RE_PLAYER_JOIN@, join_line), 2) == Some(u),
        read_past_time(left_line),
        regex_captures(RE_USER_AUTH@, left_line) is None,
        regex_captures(RE_ENTERING@, left_line) is None,
        regex_captures(RE_JOINING@, left_line) is None,
        regex_captures(RE_LEFT_ROOM@, left_line) is None,
        regex_captures(RE_PLAYER_JOIN@, left_line) is None,
        group(regex_captures(RE_PLAYER_LEFT@, left_line), 2) == Some(u),
    ensures
        ({
            let (s1, o1) = line_step(s, join_line);
            let o2 = line_step(s1, left_line).1;
            &&& o1.actions.len() == 2
            &&& o1.actions[0] matches DbActionView::UpsertUser { user_id, display_name }
            &&& user_id == u && display_name == d
            &&& o1.actions[1] matches DbActionView::InsertWithUser { visit_id, user_id, .. }
            &&& visit_id == v && user_id == u
            &&& o2.actions.len() == 1
            &&& o2.actions[0] matches DbActionView::MarkUserLeft { visit_id, user_id, .. }
            &&& visit_id == v && user_id == u
        }),
{
}

/// Progress is reported exactly every `PROGRESS_INTERVAL` lines.
pub proof fn law_progress_interval(s: ImportStateView, line: Seq<char>)
    requires
        s.line_count < u64::MAX,
    ensures
        line_step(s, line).0.line_count == s.line_count + 1,
        line_step(s, line).1.progress is Some <==> (s.line_count + 1) % (PROGRESS_INTERVAL as int) == 0,
{
}

/// The end of a log closes the visit in progress at the last timestamp and
/// writes the session's times and account under the log's name.
pub proof fn law_finish(s: ImportStateView)
    ensures
        finish_actions(s).last() == (DbActionView::UpdateSession {
            log_name: s.filename,
            start_time: or_empty(s.start_time),
            end_time: s.end_time,
            account_id: s.my_user_id,
            account_name: s.my_display_name,
        }),
        s.current_visit_id matches Some(v) ==> finish_actions(s)[0] == (DbActionView::CloseVisit {
            visit_id: v,
            leave_time: or_empty(s.current_ts),
        }),
        finish_actions(s).len() == if s.current_visit_id is Some { 2int } else { 1int },
{
}

fn clone_opt(o: &Option<String>) -> (r: Option<String>)
    ensures
        opt_view(r) == opt_view(*o),
{
    match o {
        Some(s) => Some(s.clone()),
        None => None,
    }
}

fn or_empty_string(o: &Option<String>) -> (r: String)
    ensures
        r@ == or_empty(opt_view(*o)),
{
    match o {
        Some(s) => s.clone(),
        None => String::new(),
    }
}

fn opt_i64(o: &Option<String>) -> (r: Option<i64>)
    ensures
        r == opt_int(opt_view(*o)),
{
    match o {
        Some(s) => parse_i64(s.as_str()),
        None => None,
    }
}

fn non_empty_string(o: Option<String>) -> (r: Option<String>)
    ensures
        opt_view(r) == non_empty(opt_view(o)),
{
    match o {
        Some(s) => if s.as_str().is_empty() {
            None
        } else {
            Some(s)
        },
        None => None,
    }
}

impl ImportState {
    /// The state with its strings as character sequences.
    pub closed spec fn view(&self) -> ImportStateView {
        ImportStateView {
            filename: self.filename@,
            start_time: opt_view(self.start_time),
            end_time: opt_view(self.end_time),
            my_user_id: opt_view(self.my_user_id),
            my_display_name: opt_view(self.my_display_name),
            current_ts: opt_view(self.current_ts),
            current_visit_id: self.current_visit_id,
            pending_room_name: opt_view(self.pending_room_name),
            line_count: self.line_count,
        }
    }

    /// The state at the start of the log named `filename`.
    pub fn new(filename: &str) -> (r: Self)
        ensures
            r@ == initial_state(filename@),
    {
        ImportState {
            filename: owned(filename),
            start_time: None,
            end_time: None,
            my_user_id: None,
            my_display_name: None,
            current_ts: None,
            current_visit_id: None,
            pending_room_name: None,
            line_count: 0,
        }
    }

    /// Records the row id of the visit just inserted as the visit in progress.
    pub fn visit_inserted(&mut self, visit_id: i64)
        ensures
            final(self)@ == (ImportStateView { current_visit_id: Some(visit_id), ..old(self)@ }),
    {
        self.current_visit_id = Some(visit_id);
    }

    /// The visit in progress.
    pub fn current_visit_id(&self) -> (r: Option<i64>)
        ensures
            r == self@.current_visit_id,
    {
        self.current_visit_id
    }

    fn count_line(&mut self) -> (r: Option<String>)
        ensures
            (final(self)@, opt_view(r)) == count_step(old(self)@),
    {
        if self.line_count < u64::MAX {
            self.line_count = self.line_count + 1;
        }
        if self.line_count % PROGRESS_INTERVAL == 0 {
            let mut s = owned("パース中... ");
            push_str(&mut s, u64_text(self.line_count).as_str());
            push_str(&mut s, " 行");
            Some(s)
        } else {
            None
        }
    }

    fn take_timestamp(&mut self, patterns: &LogPatterns, line: &str) -> (r: (Option<String>, bool))
        ensures
            (final(self)@, opt_view(r.0), r.1) == time_step(old(self)@, line@),
    {
        let caps = patterns.time(line);
        if caps.is_none() {
            return (None, false);
        }
        let ts = match capture_group(&caps, 1) {
            Some(ts) => ts,
            None => {
                return (None, true);
            },
        };
        match reformat_timestamp(ts.as_str(), LOG_TIME_FORMAT) {
            Some(formatted) => {
                if self.start_time.is_none() {
                    self.start_time = Some(formatted.clone());
                }
                self.end_time = Some(formatted.clone());
                self.current_ts = Some(formatted);
                (None, false)
            },
            None => {
                let mut w = concat3("timestamp parse skipped [", self.filename.as_str(), "]: ");
                push_str(&mut w, ts.as_str());
                (Some(w), false)
            },
        }
    }

    fn close_current_visit(&self, ts: &String) -> (r: Vec<DbAction>)
        ensures
            actions_view(r@) == close_current(self@, ts@),
    {
        let mut r = Vec::new();
        match self.current_visit_id {
            Some(v) => {
                r.push(DbAction::CloseVisit { visit_id: v, leave_time: ts.clone() });
            },
            None => {},
        }
        assert(actions_view(r@) =~= close_current(self@, ts@));
        r
    }

    fn handle_user_auth(&mut self, patterns: &LogPatterns, line: &str) -> (r: Option<
        Vec<DbAction>,
    >)
        ensures
            r is None ==> on_user_auth(old(self)@, line@) is None && final(self)@ == old(self)@,
            r matches Some(a) ==> on_user_auth(old(self)@, line@) == Some(
                (final(self)@, actions_view(a@)),
            ),
    {
        let caps = patterns.user_auth(line);
        if caps.is_none() {
            return None;
        }
        if self.my_display_name.is_none() {
            let name = capture_group(&caps, 1);
            let user = capture_group(&caps, 2);
            if name.is_some() && user.is_some() {
                self.my_display_name = name;
                self.my_user_id = user;
            }
        }
        let r: Vec<DbAction> = Vec::new();
        assert(actions_view(r@) =~= Seq::<DbActionView>::empty());
        Some(r)
    }

    fn handle_entering(&mut self, patterns: &LogPatterns, line: &str, ts: &String) -> (r: Option<
        Vec<DbAction>,
    >)
        ensures
            r is None ==> on_entering(old(self)@, line@, ts@) is None && final(self)@ == old(
                self,
            )@,
            r matches Some(a) ==> on_entering(old(self)@, line@, ts@) == Some(
                (final(self)@, actions_view(a@)),
            ),
    {
        let caps = patterns.entering(line);
        if caps.is_none() {
            return None;
        }
        let actions = self.close_current_visit(ts);
        let room = capture_group(&caps, 1);
        if room.is_some() {
            self.pending_room_name = room;
        }
        self.current_visit_id = None;
        Some(actions)
    }

    fn handle_joining(&mut self, patterns: &LogPatterns, line: &str, ts: &String) -> (r: Option<
        Vec<DbAction>,
    >)
        ensures
            r is None ==> on_joining(old(self)@, line@, ts@) is None && final(self)@ == old(self)@,
            r matches Some(a) ==> on_joining(old(self)@, line@, ts@) == Some(
                (final(self)@, actions_view(a@)),
            ),
    {
        let caps = patterns.joining(line);
        if caps.is_none() {
            return None;
        }
        let mut actions: Vec<DbAction> = Vec::new();
        let room = match &self.pending_room_name {
            Some(room) => room.clone(),
            None => {
                assert(actions_view(actions@) =~= Seq::<DbActionView>::empty());
                return Some(actions);
            },
        };
        let access = match capture_group(&caps, 3) {
            Some(a) => a,
            None => {
                assert(actions_view(actions@) =~= Seq::<DbActionView>::empty());
                return Some(actions);
            },
        };
        let instance_id = or_empty_string(&capture_group(&caps, 2));
        let access_raw = trim(access.as_str());
        let region = capture_group(&caps, 4);
        let (instance_type, _owner) = parse_access_type(patterns, access_raw.as_str());
        actions.push(
            DbAction::InsertVisit {
                world_name: room,
                instance_id,
                instance_type,
                region,
                join_time: ts.clone(),
            },
        );
        self.current_visit_id = None;
        self.pending_room_name = None;
        proof {
            let caps_v = regex_captures(RE_JOINING@, line@);
            assert(actions_view(actions@) =~= seq![
                DbActionView::InsertVisit {
                    world_name: or_empty(old(self)@.pending_room_name),
                    instance_id: or_empty(group(caps_v, 2)),
                    instance_type: access_type_of(trimmed(group(caps_v, 3).unwrap())),
                    region: group(caps_v, 4),
                    join_time: ts@,
                },
            ]);
        }
        Some(actions)
    }

    fn handle_left_room(&mut self, patterns: &LogPatterns, line: &str, ts: &String) -> (r: Option<
        Vec<DbAction>,
    >)
        ensures
            r is None ==> on_left_room(old(self)@, line@, ts@) is None && final(self)@ == old(
                self,
            )@,
            r matches Some(a) ==> on_left_room(old(self)@, line@, ts@) == Some(
                (final(self)@, actions_view(a@)),
            ),
    {
        if !patterns.left_room(line) {
            return None;
        }
        let mut actions: Vec<DbAction> = Vec::new();
        match self.current_visit_id {
            Some(v) => {
                actions.push(DbAction::CloseVisit { visit_id: v, leave_time: ts.clone() });
                self.current_visit_id = None;
                self.pending_room_name = None;
            },
            None => {},
        }
        assert(actions_view(actions@) =~= on_left_room(old(self)@, line@, ts@).unwrap().1);
        Some(actions)
    }

    fn handle_player_join(&mut self, patterns: &LogPatterns, line: &str, ts: &String) -> (r:
        Option<Vec<DbAction>>)
        ensures
            r is None ==> on_player_join(old(self)@, line@, ts@) is None && final(self)@ == old(
                self,
            )@,
            r matches Some(a) ==> on_player_join(old(self)@, line@, ts@) == Some(
                (final(self)@, actions_view(a@)),
            ),
    {
        let caps = patterns.player_join(line);
        if caps.is_none() {
            return None;
        }
        let mut actions: Vec<DbAction> = Vec::new();
        match (capture_group(&caps, 1), capture_group(&caps, 2)) {
            (Some(display_name), Some(user_id)) => {
                actions.push(
                    DbAction::UpsertUser { user_id: user_id.clone(), display_name: display_name },
                );
                match self.current_visit_id {
                    Some(v) => {
                        actions.push(
                            DbAction::InsertWithUser {
                                visit_id: v,
                                user_id: user_id,
                                join_time: ts.clone(),
                            },
                        );
                    },
                    None => {},
                }
            },
            _ => {},
        }
        assert(actions_view(actions@) =~= on_player_join(old(self)@, line@, ts@).unwrap().1);
        Some(actions)
    }

    fn handle_player_left(&mut self, patterns: &LogPatterns, line: &str, ts: &String) -> (r:
        Option<Vec<DbAction>>)
        ensures
            r is None ==> on_player_left(old(self)@, line@, ts@) is None && final(self)@ == old(
                self,
            )@,
            r matches Some(a) ==> on_player_left(old(self)@, line@, ts@) == Some(
                (final(self)@, actions_view(a@)),
            ),
    {
        let caps = patterns.player_left(line);
        if caps.is_none() {
            return None;
        }
        let mut actions: Vec<DbAction> = Vec::new();
        match (capture_group(&caps, 2), self.current_visit_id) {
            (Some(user_id), Some(v)) => {
                actions.push(
                    DbAction::MarkUserLeft { visit_id: v, user_id, leave_time: ts.clone() },
                );
            },
            _ => {},
        }
        assert(actions_view(actions@) =~= on_player_left(old(self)@, line@, ts@).unwrap().1);
        Some(actions)
    }

    fn handle_is_local(&mut self, patterns: &LogPatterns, line: &str) -> (r: Option<
        Vec<DbAction>,
    >)
        ensures
            r is None ==> on_is_local(old(self)@, line@) is None && final(self)@ == old(self)@,
            r matches Some(a) ==> on_is_local(old(self)@, line@) == Some(
                (final(self)@, actions_view(a@)),
            ),
    {
        let caps = patterns.is_local(line);
        if caps.is_none() {
            return None;
        }
        let mut actions: Vec<DbAction> = Vec::new();
        match (capture_group(&caps, 1), capture_group(&caps, 2)) {
            (Some(display_name), Some(locality)) => {
                if str_eq(locality.as_str(), "local") {
                    let placeholder = match &self.my_display_name {
                        None => true,
                        Some(n) => str_eq(n.as_str(), "[LocalPlayer]"),
                    };
                    if placeholder {
                        self.my_display_name = Some(display_name.clone());
                    }
                    match self.current_visit_id {
                        Some(v) => {
                            actions.push(DbAction::MarkSelf { visit_id: v, display_name });
                        },
                        None => {},
                    }
                }
            },
            _ => {},
        }
        assert(actions_view(actions@) =~= on_is_local(old(self)@, line@).unwrap().1);
        Some(actions)
    }

    fn handle_screenshot(&mut self, patterns: &LogPatterns, line: &str, ts: &String) -> (r:
        Option<Vec<DbAction>>)
        ensures
            r is None ==> on_screenshot(old(self)@, line@, ts@) is None && final(self)@ == old(
                self,
            )@,
            r matches Some(a) ==> on_screenshot(old(self)@, line@, ts@) == Some(
                (final(self)@, actions_view(a@)),
            ),
    {
        let caps = patterns.screenshot(line);
        if caps.is_none() {
            return None;
        }
        let mut actions: Vec<DbAction> = Vec::new();
        match capture_group(&caps, 1) {
            Some(file_path) => {
                let width = opt_i64(&capture_group(&caps, 2));
                let height = opt_i64(&capture_group(&caps, 3));
                actions.push(
                    DbAction::InsertScreenshot {
                        visit_id: self.current_visit_id,
                        file_path,
                        width,
                        height,
                        timestamp: ts.clone(),
                    },
                );
            },
            None => {},
        }
        assert(actions_view(actions@) =~= on_screenshot(old(self)@, line@, ts@).unwrap().1);
        Some(actions)
    }

    fn handle_osc(&mut self, patterns: &LogPatterns, line: &str, ts: &String) -> (r: Option<
        Vec<DbAction>,
    >)
        ensures
            r is None ==> on_osc(old(self)@, line@, ts@) is None && final(self)@ == old(self)@,
            r matches Some(a) ==> on_osc(old(self)@, line@, ts@) == Some(
                (final(self)@, actions_view(a@)),
            ),
    {
        let caps = patterns.osc_found(line);
        if caps.is_none() {
            return None;
        }
        let mut actions: Vec<DbAction> = Vec::new();
        actions.push(
            DbAction::InsertOsc {
                service_name: capture_group(&caps, 1),
                ip_address: capture_group(&caps, 2),
                port: opt_i64(&capture_group(&caps, 3)),
                timestamp: ts.clone(),
            },
        );
        assert(actions_view(actions@) =~= on_osc(old(self)@, line@, ts@).unwrap().1);
        Some(actions)
    }

    fn handle_notification(&mut self, patterns: &LogPatterns, line: &str, ts: &String) -> (r:
        Option<Vec<DbAction>>)
        ensures
            r is None ==> on_notification(old(self)@, line@, ts@) is None && final(self)@ == old(
                self,
            )@,
            r matches Some(a) ==> on_notification(old(self)@, line@, ts@) == Some(
                (final(self)@, actions_view(a@)),
            ),
    {
        let caps = patterns.notification(line);
        if caps.is_none() {
            return None;
        }
        let mut actions: Vec<DbAction> = Vec::new();
        let kind = match capture_group(&caps, 3) {
            Some(t) => trim(t.as_str()),
            None => {
                assert(actions_view(actions@) =~= Seq::<DbActionView>::empty());
                return Some(actions);
            },
        };
        if !is_collectible_notification(kind.as_str()) {
            assert(actions_view(actions@) =~= Seq::<DbActionView>::empty());
            return Some(actions);
        }
        let created = match capture_group(&caps, 5) {
            Some(c) => trim(c.as_str()),
            None => {
                assert(actions_view(actions@) =~= Seq::<DbActionView>::empty());
                return Some(actions);
            },
        };
        let created_at = reformat_timestamp(created.as_str(), NOTIFICATION_TIME_FORMAT);
        let world_id = capture_group(&patterns.notification_world_id(line), 1);
        let target = match &world_id {
            Some(w) => parse_location(patterns, w.as_str()),
            None => ParsedLocation::empty(),
        };
        let target_world_name = capture_group(&patterns.notification_world_name(line), 1);
        actions.push(
            DbAction::InsertNotification {
                notif_id: capture_group(&caps, 4),
                notif_type: kind,
                sender_user_id: non_empty_string(capture_group(&caps, 2)),
                sender_name: non_empty_string(capture_group(&caps, 1)),
                message: capture_group(&caps, 6),
                created_at,
                received_at: ts.clone(),
                target_world_name,
                target,
            },
        );
        assert(actions_view(actions@) =~= on_notification(old(self)@, line@, ts@).unwrap().1);
        Some(actions)
    }

    fn handle_subscription(&mut self, patterns: &LogPatterns, line: &str, ts: &String) -> (r:
        Option<Vec<DbAction>>)
        ensures
            r is None ==> on_subscription(old(self)@, line@, ts@) is None && final(self)@ == old(
                self,
            )@,
            r matches Some(a) ==> on_subscription(old(self)@, line@, ts@) == Some(
                (final(self)@, actions_view(a@)),
            ),
    {
        let caps = patterns.subscription_status(line);
        if caps.is_none() {
            return None;
        }
        let id = or_empty_string(&capture_group(&caps, 1));
        let active = or_empty_string(&capture_group(&caps, 2));
        let desc = or_empty_string(&capture_group(&caps, 3));
        let is_active = eq_ignore_ascii_case(active.as_str(), "true");
        let subscription_id = if id.as_str().is_empty() || str_eq(id.as_str(), "None") {
            None
        } else {
            Some(id)
        };
        let description = if desc.as_str().is_empty() {
            None
        } else {
            Some(desc)
        };
        let mut actions: Vec<DbAction> = Vec::new();
        actions.push(
            DbAction::InsertSubscription {
                is_active,
                subscription_id,
                description,
                checked_at: ts.clone(),
            },
        );
        proof {
            reveal_strlit("true");
        }
        assert(actions_view(actions@) =~= on_subscription(old(self)@, line@, ts@).unwrap().1);
        Some(actions)
    }

    fn handle_events(&mut self, patterns: &LogPatterns, line: &str, ts: &String) -> (r: Vec<
        DbAction,
    >)
        ensures
            (final(self)@, actions_view(r@)) == event_step(old(self)@, line@, ts@),
    {
        if let Some(a) = self.handle_user_auth(patterns, line) {
            return a;
        }
        if let Some(a) = self.handle_entering(patterns, line, ts) {
            return a;
        }
        if let Some(a) = self.handle_joining(patterns, line, ts) {
            return a;
        }
        if let Some(a) = self.handle_left_room(patterns, line, ts) {
            return a;
        }
        if let Some(a) = self.handle_player_join(patterns, line, ts) {
            return a;
        }
        if let Some(a) = self.handle_player_left(patterns, line, ts) {
            return a;
        }
        if let Some(a) = self.handle_is_local(patterns, line) {
            return a;
        }
        if let Some(a) = self.handle_screenshot(patterns, line, ts) {
            return a;
        }
        if let Some(a) = self.handle_osc(patterns, line, ts) {
            return a;
        }
        if let Some(a) = self.handle_notification(patterns, line, ts) {
            return a;
        }
        if let Some(a) = self.handle_subscription(patterns, line, ts) {
            return a;
        }
        let r: Vec<DbAction> = Vec::new();
        assert(actions_view(r@) =~= Seq::<DbActionView>::empty());
        r
    }

    /// Processes one line of the log.
    pub fn process_line(&mut self, patterns: &LogPatterns, line: &str) -> (r: LineOutcome)
        ensures
            (final(self)@, r@) == line_step(old(self)@, line@),
    {
        let progress = self.count_line();
        let (warning, skip) = self.take_timestamp(patterns, line);
        if skip {
            let actions: Vec<DbAction> = Vec::new();
            assert(actions_view(actions@) =~= Seq::<DbActionView>::empty());
            return LineOutcome { actions, progress, warning };
        }
        let ts = or_empty_string(&self.current_ts);
        let actions = self.handle_events(patterns, line, &ts);
        LineOutcome { actions, progress, warning }
    }

    /// The writes that end the log.
    pub fn finish(&self) -> (r: Vec<DbAction>)
        ensures
            actions_view(r@) == finish_actions(self@),
    {
        let last_ts = or_empty_string(&self.current_ts);
        let mut r = self.close_current_visit(&last_ts);
        r.push(
            DbAction::UpdateSession {
                log_name: self.filename.clone(),
                start_time: or_empty_string(&self.start_time),
                end_time: clone_opt(&self.end_time),
                account_id: clone_opt(&self.my_user_id),
                account_name: clone_opt(&self.my_display_name),
            },
        );
        assert(actions_view(r@) =~= finish_actions(self@));
        r
    }
}

} // verus!
