//! The regular expressions that recognise the VRChat log lines, compiled
//! once and matched through the `regex` crate.
use vstd::prelude::*;

verus! {

/// Whether `regex::Regex::new` accepts `pattern` (its syntax is valid and the
/// compiled program stays within the default size limit).
pub uninterp spec fn regex_compiles(pattern: Seq<char>) -> bool;

/// What `regex::Regex::captures` finds in `haystack` for the regex compiled
/// from `pattern`: `None` when nothing matches, otherwise the text of each
/// capture group by index (group 0 is the whole match, a group that took no
/// part is `None`).
pub uninterp spec fn regex_captures(pattern: Seq<char>, haystack: Seq<char>) -> Option<
    Seq<Option<Seq<char>>>,
>;

#[verifier::external_type_specification]
#[verifier::external_body]
pub struct ExRegex(regex::Regex);

/// The view of a capture result: the text of each group.
pub open spec fn groups_view(g: Option<Vec<Option<String>>>) -> Option<Seq<Option<Seq<char>>>> {
    match g {
        Some(v) => Some(
            v@.map_values(
                |o: Option<String>|
                    match o {
                        Some(s) => Some(s@),
                        None => None,
                    },
            ),
        ),
        None => None,
    }
}

/// Group `i` of a capture result; `None` when nothing matched or the group
/// took no part.
pub open spec fn group(c: Option<Seq<Option<Seq<char>>>>, i: int) -> Option<Seq<char>> {
    match c {
        Some(g) => if 0 <= i < g.len() {
            g[i]
        } else {
            None
        },
        None => None,
    }
}

/// The view of an optional string.
pub open spec fn opt_view(o: Option<String>) -> Option<Seq<char>> {
    match o {
        Some(s) => Some(s@),
        None => None,
    }
}

/// Group `i` of a capture result, as `Captures::get` hands it out.
pub fn capture_group(c: &Option<Vec<Option<String>>>, i: usize) -> (r: Option<String>)
    ensures
        opt_view(r) == group(groups_view(*c), i as int),
{
    match c {
        Some(g) => {
            if i < g.len() {
                match &g[i] {
                    Some(s) => Some(s.clone()),
                    None => None,
                }
            } else {
                None
            }
        },
        None => None,
    }
}

/// A regular expression together with the text it was compiled from.
pub struct Pattern {
    source: String,
    compiled: regex::Regex,
}

impl Pattern {
    /// The text the expression was compiled from.
    pub closed spec fn source(&self) -> Seq<char> {
        self.source@
    }

    /// Compiles `source` with `regex::Regex::new`.
    ///
    /// Trusted: `Regex::new` succeeds exactly for the patterns it accepts,
    /// which depends on the pattern alone; the compiled expression is kept
    /// beside its source, which no other code changes.
    #[verifier::external_body]
    pub(crate) fn compile(source: &str) -> (r: Option<Pattern>)
        ensures
            r is Some <==> regex_compiles(source@),
            r matches Some(p) ==> p.source() == source@,
    {
        match regex::Regex::new(source) {
            Ok(compiled) => Some(Pattern { source: source.to_string(), compiled }),
            Err(_) => None,
        }
    }

    /// Matches the expression against `haystack` with `Regex::captures`.
    ///
    /// Trusted: the groups found are those of the leftmost-first match of the
    /// expression compiled from `source`, as `Captures::iter` lists them.
    #[verifier::external_body]
    pub(crate) fn captures(&self, haystack: &str) -> (r: Option<Vec<Option<String>>>)
        ensures
            groups_view(r) == regex_captures(self.source(), haystack@),
    {
        self.compiled.captures(haystack).map(
            |caps| caps.iter().map(|m| m.map(|m| m.as_str().to_string())).collect(),
        )
    }

    /// Whether the expression matches somewhere in `haystack`.
    pub fn is_match(&self, haystack: &str) -> (r: bool)
        ensures
            r == regex_captures(self.source(), haystack@) is Some,
    {
        self.captures(haystack).is_some()
    }
}

/// The timestamp at the start of a log line.
pub const RE_TIME: &'static str = r"^(\d{4}\.\d{2}\.\d{2} \d{2}:\d{2}:\d{2})";

/// The authenticated-user line written once per session:
/// `User Authenticated: Name (usr_xxxx)`.
pub const RE_USER_AUTH: &'static str = r"User Authenticated: (.*?) \((usr_[a-f0-9\-]+)\)";

/// The world name line written before a join: `[Behaviour] Entering Room: World Name`.
pub const RE_ENTERING: &'static str = r"\[Behaviour\] Entering Room: (.*)";

/// The world join line: `[Behaviour] Joining wrld_xxx:74156~private(usr_xxx)~region(jp)`.
/// Group 1 is the world id, 2 the instance number, 3 the raw access part and 4 the region.
pub const RE_JOINING: &'static str = r"\[Behaviour\] Joining (wrld_[^:]+)(?::(\d+))?~?((?:private|friends|hidden|public|group)[^~]*)(?:~region\(([^)]+)\))?";

/// The room-left marker.
pub const RE_LEFT_ROOM: &'static str = r"\[Behaviour\] OnLeftRoom";

/// The player-joined line: `[Behaviour] OnPlayerJoined Name (usr_xxxx)`.
pub const RE_PLAYER_JOIN: &'static str = r"\[Behaviour\] OnPlayerJoined (.*?) \((usr_[a-f0-9\-]+)\)";

/// The player-left line.
pub const RE_PLAYER_LEFT: &'static str = r"\[Behaviour\] OnPlayerLeft (.*?) \((usr_[a-f0-9\-]+)\)";

/// The local/remote player classification written after a world is entered:
/// `[Behaviour] Initialized PlayerAPI "Name" is local`.
pub const RE_IS_LOCAL: &'static str = r#"\[Behaviour\] Initialized PlayerAPI "(.*?)" is (local|remote)"#;

/// A received notification.  Group 1 is the sender name, 2 the sender id,
/// 3 the type, 4 the notification id, 5 the creation time and 6 the message.
pub const RE_NOTIFICATION: &'static str = r#"Received Notification: <Notification from username:([^,]*), sender user id:([^ ]*) to [^ ]+ of type: ([^,]+), id: (not_[a-f0-9\-]+), created at: ([^,]+),[^>]*message: "([^"]*)"\s*>"#;

/// The `worldId` value of a notification payload.
pub const RE_NOTIFICATION_WORLD_ID: &'static str = r"worldId=(wrld_[^,}]+)";

/// The `worldName` value of a notification payload.
pub const RE_NOTIFICATION_WORLD_NAME: &'static str = r"worldName=([^,}]+)";

/// The line that marks a player as loaded.
pub const RE_PLAYER_JOIN_COMPLETE: &'static str = r"\[Behaviour\] OnPlayerJoinComplete (.+)";

/// The VRChat+ subscription line written at session start.
pub const RE_SUBSCRIPTION_STATUS: &'static str = r"Get VRChat Subscription Details! Subscription Id:([^ ]*) active:(True|False) desc:(.*)";

/// A screenshot taken with the VRC camera.  Group 1 is the file path, 2 the
/// width and 3 the height.
pub const RE_SCREENSHOT: &'static str = r"\[VRC Camera\] Took screenshot to: (.+_(\d+)x(\d+)\.\w+)";

/// A discovered OSC service: `Found new OSC Service: OyasumiVR at 127.0.0.1:61080`.
pub const RE_OSC_FOUND: &'static str = r"Found new OSC Service: (.+?) at ([\d.]+):(\d+)";

/// A `usr_...` id in parentheses.
pub const RE_USR: &'static str = r"\((usr_[^)]+)\)";

/// The compiled expressions of every log line kind.
pub struct LogPatterns {
    time: Pattern,
    user_auth: Pattern,
    entering: Pattern,
    joining: Pattern,
    left_room: Pattern,
    player_join: Pattern,
    player_left: Pattern,
    is_local: Pattern,
    notification: Pattern,
    notification_world_id: Pattern,
    notification_world_name: Pattern,
    player_join_complete: Pattern,
    subscription_status: Pattern,
    screenshot: Pattern,
    osc_found: Pattern,
    usr: Pattern,
}

/// Every expression of the library compiles.
pub open spec fn all_patterns_compile() -> bool {
    &&& regex_compiles(RE_TIME@)
    &&& regex_compiles(RE_USER_AUTH@)
    &&& regex_compiles(RE_ENTERING@)
    &&& regex_compiles(RE_JOINING@)
    &&& regex_compiles(RE_LEFT_ROOM@)
    &&& regex_compiles(RE_PLAYER_JOIN@)
    &&& regex_compiles(RE_PLAYER_LEFT@)
    &&& regex_compiles(RE_IS_LOCAL@)
    &&& regex_compiles(RE_NOTIFICATION@)
    &&& regex_compiles(RE_NOTIFICATION_WORLD_ID@)
    &&& regex_compiles(RE_NOTIFICATION_WORLD_NAME@)
    &&& regex_compiles(RE_PLAYER_JOIN_COMPLETE@)
    &&& regex_compiles(RE_SUBSCRIPTION_STATUS@)
    &&& regex_compiles(RE_SCREENSHOT@)
    &&& regex_compiles(RE_OSC_FOUND@)
    &&& regex_compiles(RE_USR@)
}

impl LogPatterns {
    /// Each expression was compiled from its constant.
    #[verifier::type_invariant]
    closed spec fn compiled_from_constants(&self) -> bool {
        &&& self.time.source() == RE_TIME@
        &&& self.user_auth.source() == RE_USER_AUTH@
        &&& self.entering.source() == RE_ENTERING@
        &&& self.joining.source() == RE_JOINING@
        &&& self.left_room.source() == RE_LEFT_ROOM@
        &&& self.player_join.source() == RE_PLAYER_JOIN@
        &&& self.player_left.source() == RE_PLAYER_LEFT@
        &&& self.is_local.source() == RE_IS_LOCAL@
        &&& self.notification.source() == RE_NOTIFICATION@
        &&& self.notification_world_id.source() == RE_NOTIFICATION_WORLD_ID@
        &&& self.notification_world_name.source() == RE_NOTIFICATION_WORLD_NAME@
        &&& self.player_join_complete.source() == RE_PLAYER_JOIN_COMPLETE@
        &&& self.subscription_status.source() == RE_SUBSCRIPTION_STATUS@
        &&& self.screenshot.source() == RE_SCREENSHOT@
        &&& self.osc_found.source() == RE_OSC_FOUND@
        &&& self.usr.source() == RE_USR@
    }

    /// Compiles every expression; `None` when one of them is refused.
    pub fn new() -> (r: Option<LogPatterns>)
        ensures
            r is Some <==> all_patterns_compile(),
    {
        let time = Pattern::compile(RE_TIME);
        let user_auth = Pattern::compile(RE_USER_AUTH);
        let entering = Pattern::compile(RE_ENTERING);
        let joining = Pattern::compile(RE_JOINING);
        let left_room = Pattern::compile(RE_LEFT_ROOM);
        let player_join = Pattern::compile(RE_PLAYER_JOIN);
        let player_left = Pattern::compile(RE_PLAYER_LEFT);
        let is_local = Pattern::compile(RE_IS_LOCAL);
        let notification = Pattern::compile(RE_NOTIFICATION);
        let notification_world_id = Pattern::compile(RE_NOTIFICATION_WORLD_ID);
        let notification_world_name = Pattern::compile(RE_NOTIFICATION_WORLD_NAME);
        let player_join_complete = Pattern::compile(RE_PLAYER_JOIN_COMPLETE);
        let subscription_status = Pattern::compile(RE_SUBSCRIPTION_STATUS);
        let screenshot = Pattern::compile(RE_SCREENSHOT);
        let osc_found = Pattern::compile(RE_OSC_FOUND);
        let usr = Pattern::compile(RE_USR);
        match (
            time,
            user_auth,
            entering,
            joining,
            left_room,
            player_join,
            player_left,
            is_local,
            notification,
            notification_world_id,
            notification_world_name,
            player_join_complete,
            subscription_status,
            screenshot,
            osc_found,
            usr,
        ) {
            (
                Some(time),
                Some(user_auth),
                Some(entering),
                Some(joining),
                Some(left_room),
                Some(player_join),
                Some(player_left),
                Some(is_local),
                Some(notification),
                Some(notification_world_id),
                Some(notification_world_name),
                Some(player_join_complete),
                Some(subscription_status),
                Some(screenshot),
                Some(osc_found),
                Some(usr),
            ) => Some(
                LogPatterns {
                    time,
                    user_auth,
                    entering,
                    joining,
                    left_room,
                    player_join,
                    player_left,
                    is_local,
                    notification,
                    notification_world_id,
                    notification_world_name,
                    player_join_complete,
                    subscription_status,
                    screenshot,
                    osc_found,
                    usr,
                },
            ),
            _ => None,
        }
    }

    /// Captures of the timestamp expression.
    pub fn time(&self, line: &str) -> (r: Option<Vec<Option<String>>>)
        ensures
            groups_view(r) == regex_captures(RE_TIME@, line@),
    {
        proof {
            use_type_invariant(self);
        }
        self.time.captures(line)
    }

    /// Captures of the authenticated-user expression.
    pub fn user_auth(&self, line: &str) -> (r: Option<Vec<Option<String>>>)
        ensures
            groups_view(r) == regex_captures(RE_USER_AUTH@, line@),
    {
        proof {
            use_type_invariant(self);
        }
        self.user_auth.captures(line)
    }

    /// Captures of the entering-room expression.
    pub fn entering(&self, line: &str) -> (r: Option<Vec<Option<String>>>)
        ensures
            groups_view(r) == regex_captures(RE_ENTERING@, line@),
    {
        proof {
            use_type_invariant(self);
        }
        self.entering.captures(line)
    }

    /// Captures of the joining expression.
    pub fn joining(&self, line: &str) -> (r: Option<Vec<Option<String>>>)
        ensures
            groups_view(r) == regex_captures(RE_JOINING@, line@),
    {
        proof {
            use_type_invariant(self);
        }
        self.joining.captures(line)
    }

    /// Whether the room-left expression matches.
    pub fn left_room(&self, line: &str) -> (r: bool)
        ensures
            r == regex_captures(RE_LEFT_ROOM@, line@) is Some,
    {
        proof {
            use_type_invariant(self);
        }
        self.left_room.is_match(line)
    }

    /// Captures of the player-joined expression.
    pub fn player_join(&self, line: &str) -> (r: Option<Vec<Option<String>>>)
        ensures
            groups_view(r) == regex_captures(RE_PLAYER_JOIN@, line@),
    {
        proof {
            use_type_invariant(self);
        }
        self.player_join.captures(line)
    }

    /// Captures of the player-left expression.
    pub fn player_left(&self, line: &str) -> (r: Option<Vec<Option<String>>>)
        ensures
            groups_view(r) == regex_captures(RE_PLAYER_LEFT@, line@),
    {
        proof {
            use_type_invariant(self);
        }
        self.player_left.captures(line)
    }

    /// Captures of the local-player expression.
    pub fn is_local(&self, line: &str) -> (r: Option<Vec<Option<String>>>)
        ensures
            groups_view(r) == regex_captures(RE_IS_LOCAL@, line@),
    {
        proof {
            use_type_invariant(self);
        }
        self.is_local.captures(line)
    }

    /// Captures of the notification expression.
    pub fn notification(&self, line: &str) -> (r: Option<Vec<Option<String>>>)
        ensures
            groups_view(r) == regex_captures(RE_NOTIFICATION@, line@),
    {
        proof {
            use_type_invariant(self);
        }
        self.notification.captures(line)
    }

    /// Captures of the notification world id expression.
    pub fn notification_world_id(&self, line: &str) -> (r: Option<Vec<Option<String>>>)
        ensures
            groups_view(r) == regex_captures(RE_NOTIFICATION_WORLD_ID@, line@),
    {
        proof {
            use_type_invariant(self);
        }
        self.notification_world_id.captures(line)
    }

    /// Captures of the notification world name expression.
    pub fn notification_world_name(&self, line: &str) -> (r: Option<Vec<Option<String>>>)
        ensures
            groups_view(r) == regex_captures(RE_NOTIFICATION_WORLD_NAME@, line@),
    {
        proof {
            use_type_invariant(self);
        }
        self.notification_world_name.captures(line)
    }

    /// Whether the join-complete expression matches.
    pub fn player_join_complete(&self, line: &str) -> (r: bool)
        ensures
            r == regex_captures(RE_PLAYER_JOIN_COMPLETE@, line@) is Some,
    {
        proof {
            use_type_invariant(self);
        }
        self.player_join_complete.is_match(line)
    }

    /// Captures of the subscription expression.
    pub fn subscription_status(&self, line: &str) -> (r: Option<Vec<Option<String>>>)
        ensures
            groups_view(r) == regex_captures(RE_SUBSCRIPTION_STATUS@, line@),
    {
        proof {
            use_type_invariant(self);
        }
        self.subscription_status.captures(line)
    }

    /// Captures of the screenshot expression.
    pub fn screenshot(&self, line: &str) -> (r: Option<Vec<Option<String>>>)
        ensures
            groups_view(r) == regex_captures(RE_SCREENSHOT@, line@),
    {
        proof {
            use_type_invariant(self);
        }
        self.screenshot.captures(line)
    }

    /// Captures of the OSC service expression.
    pub fn osc_found(&self, line: &str) -> (r: Option<Vec<Option<String>>>)
        ensures
            groups_view(r) == regex_captures(RE_OSC_FOUND@, line@),
    {
        proof {
            use_type_invariant(self);
        }
        self.osc_found.captures(line)
    }

    /// Captures of the `(usr_...)` expression.
    pub fn usr(&self, text: &str) -> (r: Option<Vec<Option<String>>>)
        ensures
            groups_view(r) == regex_captures(RE_USR@, text@),
    {
        proof {
            use_type_invariant(self);
        }
        self.usr.captures(text)
    }
}

} // verus!
