//! Conservative inference of the friend status that an old-style avatar
//! download line records for the users met in one world visit.
//!
//! A `Friend` value names nobody by itself, so the tracker combines the last
//! avatar switch, the download, the unpack and the users present.  When the
//! pairing is not unique, or the evidence within one visit contradicts
//! itself, the status is not treated as known.
use vstd::prelude::*;

use crate::collections::{StrMap, StrSet};
use crate::text::{concat2, has_prefix, text_starts_with};

verus! {

/// The value stored in the database for "cannot be determined".
pub const UNKNOWN_FRIEND_STATUS: i64 = 2;

/// The most lines an unpack may follow its download and still be paired with it.
pub const MAX_DOWNLOAD_UNPACK_LINE_GAP: usize = 3;

/// The friend status written in an old-style avatar download line.
#[derive(Debug, Clone, Copy, PartialEq, Eq, Structural)]
pub enum FriendStatus {
    NonFriend,
    Friend,
}

impl FriendStatus {
    /// The value stored in the database: 0 for a non-friend, 1 for a friend.
    pub open spec fn db(self) -> i64 {
        match self {
            FriendStatus::NonFriend => 0,
            FriendStatus::Friend => 1,
        }
    }

    /// Reads the `0` / `1` of a `Friend:` field.
    pub fn from_log_value(value: &str) -> (r: Option<Self>)
        ensures
            r == (if value@ == "0"@ {
                Some(FriendStatus::NonFriend)
            } else if value@ == "1"@ {
                Some(FriendStatus::Friend)
            } else {
                None::<FriendStatus>
            }),
    {
        if crate::text::str_eq(value, "0") {
            Some(FriendStatus::NonFriend)
        } else if crate::text::str_eq(value, "1") {
            Some(FriendStatus::Friend)
        } else {
            None
        }
    }

    /// The value stored in the database.
    pub fn db_value(self) -> (r: i64)
        ensures
            r == self.db(),
    {
        match self {
            FriendStatus::NonFriend => 0,
            FriendStatus::Friend => 1,
        }
    }
}

/// The download lines seen since the last unpack line.
#[derive(Debug, Clone, Copy, PartialEq, Eq, Structural)]
pub enum PendingDownload {
    /// None.
    Empty,
    /// Exactly one, with its status (if it had one) and its line number.
    One { status: Option<FriendStatus>, line_number: usize },
    /// More than one: their target cannot be told apart.
    Ambiguous,
}

/// What the visit has shown of one user's friend status.
#[derive(Debug, Clone, Copy, PartialEq, Eq, Structural)]
pub enum ObservedStatus {
    /// Every pairing so far gave this status.
    Known(FriendStatus),
    /// Two pairings gave different statuses.
    Conflict,
}

/// The state of a tracker, as maps and sets of strings.
pub struct TrackerView {
    /// User ids present in the visit, by display name.
    pub active: Map<Seq<char>, Set<Seq<char>>>,
    /// The last avatar switched to, by display name.
    pub avatar_of: Map<Seq<char>, Seq<char>>,
    /// The display names whose last switch was to an avatar, by avatar name.
    pub displays_of: Map<Seq<char>, Set<Seq<char>>>,
    /// The downloads not yet consumed by an unpack.
    pub pending: PendingDownload,
    /// What each user's pairings have shown.
    pub observed: Map<Seq<char>, ObservedStatus>,
}

/// The state that holds nothing.
pub open spec fn empty_view() -> TrackerView {
    TrackerView {
        active: Map::empty(),
        avatar_of: Map::empty(),
        displays_of: Map::empty(),
        pending: PendingDownload::Empty,
        observed: Map::empty(),
    }
}

/// What every operation keeps: no empty set is stored, and the avatar of a
/// display name and the display names of an avatar describe one relation.
pub open spec fn consistent(v: TrackerView) -> bool {
    &&& v.active.dom().finite()
    &&& v.displays_of.dom().finite()
    &&& forall|d: Seq<char>| #[trigger]
        v.active.contains_key(d) ==> v.active[d].finite() && v.active[d] != Set::<
            Seq<char>,
        >::empty()
    &&& forall|a: Seq<char>| #[trigger]
        v.displays_of.contains_key(a) ==> v.displays_of[a].finite() && v.displays_of[a]
            != Set::<Seq<char>>::empty()
    &&& forall|a: Seq<char>, d: Seq<char>|
        v.displays_of.contains_key(a) && #[trigger] v.displays_of[a].contains(d)
            ==> v.avatar_of.contains_key(d) && v.avatar_of[d] == a
    &&& forall|d: Seq<char>| #[trigger]
        v.avatar_of.contains_key(d) ==> v.displays_of.contains_key(v.avatar_of[d])
            && v.displays_of[v.avatar_of[d]].contains(d)
}

/// Forgets the avatar last switched to by display name `d`.
pub open spec fn clear_avatar(v: TrackerView, d: Seq<char>) -> TrackerView {
    if v.avatar_of.contains_key(d) {
        let a = v.avatar_of[d];
        let displays_of = if v.displays_of.contains_key(a) {
            let ds = v.displays_of[a].remove(d);
            if ds == Set::<Seq<char>>::empty() {
                v.displays_of.remove(a)
            } else {
                v.displays_of.insert(a, ds)
            }
        } else {
            v.displays_of
        };
        TrackerView { avatar_of: v.avatar_of.remove(d), displays_of, ..v }
    } else {
        v
    }
}

/// A user with id `u` and display name `d` joins.  When the display name is
/// then shared by several users, its avatar is forgotten.
pub open spec fn player_join(v: TrackerView, d: Seq<char>, u: Seq<char>) -> TrackerView {
    let users = if v.active.contains_key(d) {
        v.active[d]
    } else {
        Set::empty()
    };
    let users2 = users.insert(u);
    let v1 = TrackerView { active: v.active.insert(d, users2), ..v };
    if users2.len() > 1 {
        clear_avatar(v1, d)
    } else {
        v1
    }
}

/// The user with id `u` and display name `d` leaves; the avatar of the
/// display name is forgotten.
pub open spec fn player_left(v: TrackerView, d: Seq<char>, u: Seq<char>) -> TrackerView {
    let v1 = if v.active.contains_key(d) {
        let users = v.active[d].remove(u);
        if users == Set::<Seq<char>>::empty() {
            TrackerView { active: v.active.remove(d), ..v }
        } else {
            TrackerView { active: v.active.insert(d, users), ..v }
        }
    } else {
        v
    };
    clear_avatar(v1, d)
}

/// Display name `d` switches to avatar `a`.
pub open spec fn avatar_switch(v: TrackerView, d: Seq<char>, a: Seq<char>) -> TrackerView {
    let v1 = clear_avatar(v, d);
    let ds = if v1.displays_of.contains_key(a) {
        v1.displays_of[a]
    } else {
        Set::empty()
    };
    TrackerView {
        avatar_of: v1.avatar_of.insert(d, a),
        displays_of: v1.displays_of.insert(a, ds.insert(d)),
        ..v1
    }
}

/// A download line is seen.  A second one before the next unpack makes the
/// group ambiguous.
pub open spec fn avatar_download(
    v: TrackerView,
    status: Option<FriendStatus>,
    line_number: usize,
) -> TrackerView {
    let pending = match v.pending {
        PendingDownload::Empty => PendingDownload::One { status, line_number },
        _ => PendingDownload::Ambiguous,
    };
    TrackerView { pending, ..v }
}

/// Avatar `a` is one whose name, followed by ` by `, begins the unpack line.
pub open spec fn is_candidate(
    displays_of: Map<Seq<char>, Set<Seq<char>>>,
    payload: Seq<char>,
    a: Seq<char>,
) -> bool {
    displays_of.contains_key(a) && has_prefix(payload, a + " by "@)
}

/// The avatar the unpack line names, when exactly one known avatar fits.
pub open spec fn unique_candidate(
    displays_of: Map<Seq<char>, Set<Seq<char>>>,
    payload: Seq<char>,
) -> Option<Seq<char>> {
    if (exists|a: Seq<char>| is_candidate(displays_of, payload, a)) && (forall|
        a: Seq<char>,
        b: Seq<char>,
    |
        is_candidate(displays_of, payload, a) && is_candidate(displays_of, payload, b) ==> a == b) {
        Some(choose|a: Seq<char>| is_candidate(displays_of, payload, a))
    } else {
        None
    }
}

/// The only element of a set with one element.
pub open spec fn the_element(s: Set<Seq<char>>) -> Seq<char> {
    choose|x: Seq<char>| s.contains(x)
}

/// The user an unpack line points to: the avatar must be unique, held by one
/// display name, which one user present bears.
pub open spec fn unpack_target(
    displays_of: Map<Seq<char>, Set<Seq<char>>>,
    active: Map<Seq<char>, Set<Seq<char>>>,
    payload: Seq<char>,
) -> Option<Seq<char>> {
    match unique_candidate(displays_of, payload) {
        Some(a) => {
            let ds = displays_of[a];
            if ds.len() == 1 {
                let d = the_element(ds);
                if active.contains_key(d) && active[d].len() == 1 {
                    Some(the_element(active[d]))
                } else {
                    None
                }
            } else {
                None
            }
        },
        None => None,
    }
}

/// Records status `st` for user `u`: the stored value, and what is observed
/// afterwards.
pub open spec fn record_status(
    observed: Map<Seq<char>, ObservedStatus>,
    u: Seq<char>,
    st: FriendStatus,
) -> (Map<Seq<char>, ObservedStatus>, i64) {
    if !observed.contains_key(u) {
        (observed.insert(u, ObservedStatus::Known(st)), st.db())
    } else {
        match observed[u] {
            ObservedStatus::Known(p) => if p == st {
                (observed, st.db())
            } else {
                (observed.insert(u, ObservedStatus::Conflict), UNKNOWN_FRIEND_STATUS)
            },
            ObservedStatus::Conflict => (observed, UNKNOWN_FRIEND_STATUS),
        }
    }
}

/// An unpack line at `line_number` is seen.  The pending downloads are always
/// consumed; a user id and a stored value come back only when a single
/// download with a status, at most three lines before, pairs with one user.
pub open spec fn avatar_unpack(v: TrackerView, payload: Seq<char>, line_number: usize) -> (
    TrackerView,
    Option<(Seq<char>, i64)>,
) {
    let v0 = TrackerView { pending: PendingDownload::Empty, ..v };
    match v.pending {
        PendingDownload::One { status: Some(st), line_number: dl } => {
            if line_number < dl || line_number - dl > MAX_DOWNLOAD_UNPACK_LINE_GAP {
                (v0, None)
            } else {
                match unpack_target(v.displays_of, v.active, payload) {
                    Some(u) => {
                        let (observed, value) = record_status(v.observed, u, st);
                        (TrackerView { observed, ..v0 }, Some((u, value)))
                    },
                    None => (v0, None),
                }
            }
        },
        _ => (v0, None),
    }
}

/// Forgetting an avatar keeps the state consistent, and the display name has
/// no avatar afterwards.
pub proof fn lemma_clear_avatar_consistent(v: TrackerView, d: Seq<char>)
    requires
        consistent(v),
    ensures
        consistent(clear_avatar(v, d)),
        !clear_avatar(v, d).avatar_of.contains_key(d),
        clear_avatar(v, d).active == v.active,
        clear_avatar(v, d).pending == v.pending,
        clear_avatar(v, d).observed == v.observed,
{
    let w = clear_avatar(v, d);
    if v.avatar_of.contains_key(d) {
        let a = v.avatar_of[d];
        assert(v.displays_of.contains_key(a) && v.displays_of[a].contains(d));
        let ds = v.displays_of[a].remove(d);
        assert(ds.finite());
        assert forall|a2: Seq<char>, d2: Seq<char>|
            w.displays_of.contains_key(a2) && #[trigger] w.displays_of[a2].contains(d2) implies w.avatar_of.contains_key(d2)
                && w.avatar_of[d2] == a2 by {
            if a2 == a {
                assert(ds.contains(d2));
                assert(v.displays_of[a].contains(d2));
            } else {
                assert(v.displays_of[a2].contains(d2));
            }
        }
        assert forall|d2: Seq<char>| #[trigger] w.avatar_of.contains_key(d2) implies w.displays_of.contains_key(
            w.avatar_of[d2],
        ) && w.displays_of[w.avatar_of[d2]].contains(d2) by {
            assert(v.avatar_of.contains_key(d2));
            let a2 = v.avatar_of[d2];
            assert(v.displays_of[a2].contains(d2));
            if a2 == a {
                assert(ds.contains(d2));
            }
        }
        assert forall|a2: Seq<char>| #[trigger] w.displays_of.contains_key(a2) implies w.displays_of[
            a2].finite() && w.displays_of[a2] != Set::<Seq<char>>::empty() by {
            if a2 == a {
                assert(ds != Set::<Seq<char>>::empty());
            }
        }
    }
}

/// A join keeps the state consistent.
pub proof fn lemma_player_join_consistent(v: TrackerView, d: Seq<char>, u: Seq<char>)
    requires
        consistent(v),
    ensures
        consistent(player_join(v, d, u)),
{
    let users = if v.active.contains_key(d) {
        v.active[d]
    } else {
        Set::empty()
    };
    let users2 = users.insert(u);
    assert(users2.contains(u));
    let v1 = TrackerView { active: v.active.insert(d, users2), ..v };
    assert(users2.finite());
    assert(v1.displays_of == v.displays_of && v1.avatar_of == v.avatar_of);
    assert forall|d2: Seq<char>| #[trigger] v1.active.contains_key(d2) implies v1.active[d2].finite()
        && v1.active[d2] != Set::<Seq<char>>::empty() by {
        if d2 == d {
            assert(users2.contains(u));
        }
    }
    assert(consistent(v1));
    lemma_clear_avatar_consistent(v1, d);
}

/// A departure keeps the state consistent.
pub proof fn lemma_player_left_consistent(v: TrackerView, d: Seq<char>, u: Seq<char>)
    requires
        consistent(v),
    ensures
        consistent(player_left(v, d, u)),
{
    let v1 = if v.active.contains_key(d) {
        let users = v.active[d].remove(u);
        if users == Set::<Seq<char>>::empty() {
            TrackerView { active: v.active.remove(d), ..v }
        } else {
            TrackerView { active: v.active.insert(d, users), ..v }
        }
    } else {
        v
    };
    assert(v1.displays_of == v.displays_of && v1.avatar_of == v.avatar_of);
    assert forall|d2: Seq<char>| #[trigger] v1.active.contains_key(d2) implies v1.active[d2].finite()
        && v1.active[d2] != Set::<Seq<char>>::empty() by {
        if d2 == d {
            assert(v.active[d].finite());
        }
    }
    assert(consistent(v1));
    lemma_clear_avatar_consistent(v1, d);
}

/// An avatar switch keeps the state consistent.
pub proof fn lemma_avatar_switch_consistent(v: TrackerView, d: Seq<char>, a: Seq<char>)
    requires
        consistent(v),
    ensures
        consistent(avatar_switch(v, d, a)),
{
    let v1 = clear_avatar(v, d);
    lemma_clear_avatar_consistent(v, d);
    let ds = if v1.displays_of.contains_key(a) {
        v1.displays_of[a]
    } else {
        Set::empty()
    };
    let w = avatar_switch(v, d, a);
    assert(ds.insert(d).contains(d));
    assert forall|a2: Seq<char>, d2: Seq<char>|
        w.displays_of.contains_key(a2) && #[trigger] w.displays_of[a2].contains(d2) implies w.avatar_of.contains_key(d2)
            && w.avatar_of[d2] == a2 by {
        if a2 == a {
            if d2 != d {
                assert(ds.contains(d2));
                assert(v1.displays_of[a].contains(d2));
            }
        } else {
            assert(v1.displays_of[a2].contains(d2));
            if d2 == d {
                assert(v1.avatar_of.contains_key(d));
            }
        }
    }
    assert forall|d2: Seq<char>| #[trigger] w.avatar_of.contains_key(d2) implies w.displays_of.contains_key(
        w.avatar_of[d2],
    ) && w.displays_of[w.avatar_of[d2]].contains(d2) by {
        if d2 != d {
            assert(v1.avatar_of.contains_key(d2));
            let a2 = v1.avatar_of[d2];
            assert(v1.displays_of[a2].contains(d2));
            if a2 == a {
                assert(ds.contains(d2));
            }
        }
    }
}

/// Every unpack line consumes the pending downloads: a second unpack line
/// with no download in between pairs with nothing.
pub proof fn law_unpack_consumes_pending(
    v: TrackerView,
    first: Seq<char>,
    first_line: usize,
    second: Seq<char>,
    second_line: usize,
)
    ensures
        avatar_unpack(v, first, first_line).0.pending == PendingDownload::Empty,
        avatar_unpack(avatar_unpack(v, first, first_line).0, second, second_line).1 is None,
{
}

/// Two downloads before an unpack make the group ambiguous, whatever their
/// statuses: the unpack pairs with nothing.
pub proof fn law_two_downloads_are_ambiguous(
    v: TrackerView,
    s1: Option<FriendStatus>,
    l1: usize,
    s2: Option<FriendStatus>,
    l2: usize,
    payload: Seq<char>,
    line_number: usize,
)
    ensures
        avatar_unpack(avatar_download(avatar_download(v, s1, l1), s2, l2), payload, line_number).1
            is None,
{
}

/// A download without a status, or one more than three lines back, pairs
/// with nothing.
pub proof fn law_unusable_download_pairs_with_nothing(
    v: TrackerView,
    status: Option<FriendStatus>,
    download_line: usize,
    payload: Seq<char>,
    line_number: usize,
)
    requires
        v.pending == PendingDownload::Empty,
        status is None || line_number < download_line || line_number - download_line > 3,
    ensures
        avatar_unpack(avatar_download(v, status, download_line), payload, line_number).1 is None,
{
}

/// The stored value is always 0, 1 or 2, and the user named is the only one
/// present under some display name.
pub proof fn law_unpack_result_shape(v: TrackerView, payload: Seq<char>, line_number: usize)
    requires
        consistent(v),
    ensures
        avatar_unpack(v, payload, line_number).1 matches Some(p) ==> (p.1 == 0 || p.1 == 1 || p.1
            == 2) && exists|d: Seq<char>| #[trigger]
            v.active.contains_key(d) && v.active[d] == set![p.0],
{
    if let Some(p) = avatar_unpack(v, payload, line_number).1 {
        let a = unique_candidate(v.displays_of, payload).unwrap();
        let d = the_element(v.displays_of[a]);
        let users = v.active[d];
        assert(users.finite());
        assert(users.len() == 1);
        let u = the_element(users);
        assert(users.contains(u)) by {
            if !users.contains(u) {
                assert(users =~= Set::<Seq<char>>::empty());
            }
        }
        assert(users =~= set![u]) by {
            assert forall|x: Seq<char>| users.contains(x) implies x == u by {
                if x != u {
                    assert(users.remove(u).contains(x));
                    assert(users.remove(u).len() == 0);
                    users.remove(u).lemma_len0_is_empty();
                }
            }
        }
    }
}

/// Once a user's evidence has conflicted within a visit, every later
/// pairing with that user stores 2 and the conflict stays.
pub proof fn law_conflict_is_sticky(v: TrackerView, payload: Seq<char>, line_number: usize)
    ensures
        avatar_unpack(v, payload, line_number).1 matches Some(p) ==> (v.observed.contains_key(p.0)
            && v.observed[p.0] == ObservedStatus::Conflict) ==> p.1 == UNKNOWN_FRIEND_STATUS
            && avatar_unpack(v, payload, line_number).0.observed == v.observed,
{
}

/// A pairing that agrees with what the visit showed of the user stores that
/// status; one that contradicts it stores 2 and marks the user as conflicting.
pub proof fn law_repeated_evidence(
    v: TrackerView,
    payload: Seq<char>,
    line_number: usize,
    known: FriendStatus,
)
    ensures
        ({
            let (w, r) = avatar_unpack(v, payload, line_number);
            r matches Some(p) ==> v.observed.contains_key(p.0) && v.observed[p.0]
                == ObservedStatus::Known(known) ==> (v.pending matches PendingDownload::One {
                status: Some(st),
                ..
            } && if st == known {
                p.1 == known.db()
            } else {
                p.1 == UNKNOWN_FRIEND_STATUS && w.observed[p.0] == ObservedStatus::Conflict
            })
        }),
{
}

/// The first evidence about a user in a visit is stored as it was read: when
/// an unpack pairs with a user not yet observed, the stored value is the
/// download's status (0 for a non-friend, 1 for a friend), and that status is
/// what the visit has observed of the user afterwards.
pub proof fn law_first_evidence_is_stored(v: TrackerView, payload: Seq<char>, line_number: usize)
    ensures
        ({
            let (w, r) = avatar_unpack(v, payload, line_number);
            r matches Some(p) ==> !v.observed.contains_key(p.0) ==> (v.pending matches PendingDownload::One {
                status: Some(st),
                ..
            } && (st == FriendStatus::NonFriend ==> p.1 == 0) && (st == FriendStatus::Friend ==> p.1
                == 1) && w.observed.contains_key(p.0) && w.observed[p.0] == ObservedStatus::Known(st))
        }),
{
}

/// A departure forgets the avatar of the display name.
pub proof fn law_departure_forgets_avatar(v: TrackerView, d: Seq<char>, u: Seq<char>)
    ensures
        !player_left(v, d, u).avatar_of.contains_key(d),
{
    let v1 = if v.active.contains_key(d) {
        let users = v.active[d].remove(u);
        if users == Set::<Seq<char>>::empty() {
            TrackerView { active: v.active.remove(d), ..v }
        } else {
            TrackerView { active: v.active.insert(d, users), ..v }
        }
    } else {
        v
    };
    assert(player_left(v, d, u) == clear_avatar(v1, d));
}

/// When a join leaves several users under one display name, the avatar of
/// that display name is forgotten.
pub proof fn law_shared_display_name_forgets_avatar(v: TrackerView, d: Seq<char>, u: Seq<char>)
    requires
        v.active.contains_key(d),
        v.active[d].finite(),
        exists|w: Seq<char>| v.active[d].contains(w) && w != u,
    ensures
        !player_join(v, d, u).avatar_of.contains_key(d),
        player_join(v, d, u).active[d].contains(u),
{
    let w = choose|w: Seq<char>| v.active[d].contains(w) && w != u;
    let users2 = v.active[d].insert(u);
    assert(users2.len() > 1) by {
        assert(users2.remove(u).contains(w));
        if users2.remove(u).len() == 0 {
            users2.remove(u).lemma_len0_is_empty();
        }
    }
}

/// A reset forgets everything: nothing pairs afterwards until new
/// downloads are seen.
pub proof fn law_reset_forgets_everything(payload: Seq<char>, line_number: usize)
    ensures
        avatar_unpack(empty_view(), payload, line_number).1 is None,
        consistent(empty_view()),
{
}

/// Tracks, within one world visit, how users and avatar downloads pair up.
pub struct FriendshipTracker {
    active_users_by_display: StrMap<StrSet>,
    avatar_by_display: StrMap<String>,
    displays_by_avatar: StrMap<StrSet>,
    pending_download: PendingDownload,
    observed_by_user: StrMap<ObservedStatus>,
}

/// Every map is well formed and so is every set it stores.
pub open spec fn sets_wf(m: StrMap<StrSet>) -> bool {
    m.wf() && forall|k: Seq<char>| #[trigger] m@.contains_key(k) ==> m@[k].wf()
}

impl FriendshipTracker {
    /// The state as maps and sets of strings.
    pub closed spec fn view(&self) -> TrackerView {
        TrackerView {
            active: self.active_users_by_display@.map_values(|s: StrSet| s@),
            avatar_of: self.avatar_by_display@.map_values(|s: String| s@),
            displays_of: self.displays_by_avatar@.map_values(|s: StrSet| s@),
            pending: self.pending_download,
            observed: self.observed_by_user@,
        }
    }

    /// The representation is well formed and its view consistent.
    pub closed spec fn wf(&self) -> bool {
        &&& sets_wf(self.active_users_by_display)
        &&& sets_wf(self.displays_by_avatar)
        &&& self.avatar_by_display.wf()
        &&& self.observed_by_user.wf()
        &&& consistent(self@)
    }

    /// A well-formed tracker's state is consistent, so the laws stated of
    /// consistent states apply to it.
    pub proof fn lemma_wf_consistent(&self)
        requires
            self.wf(),
        ensures
            consistent(self@),
    {
    }

    /// A tracker that holds nothing.
    pub fn new() -> (r: Self)
        ensures
            r.wf(),
            r@ == empty_view(),
    {
        let r = FriendshipTracker {
            active_users_by_display: StrMap::new(),
            avatar_by_display: StrMap::new(),
            displays_by_avatar: StrMap::new(),
            pending_download: PendingDownload::Empty,
            observed_by_user: StrMap::new(),
        };
        proof {
            assert(r@.active =~= Map::empty());
            assert(r@.avatar_of =~= Map::empty());
            assert(r@.displays_of =~= Map::empty());
        }
        r
    }

    /// Discards every piece of visit state, at a world visit boundary.
    pub fn reset_visit(&mut self)
        ensures
            final(self).wf(),
            final(self)@ == empty_view(),
    {
        self.active_users_by_display.clear();
        self.avatar_by_display.clear();
        self.displays_by_avatar.clear();
        self.pending_download = PendingDownload::Empty;
        self.observed_by_user.clear();
        proof {
            assert(self@.active =~= Map::empty());
            assert(self@.avatar_of =~= Map::empty());
            assert(self@.displays_of =~= Map::empty());
        }
    }

    fn clear_avatar_for_display(&mut self, display_name: &str)
        requires
            old(self).wf(),
        ensures
            final(self).wf(),
            final(self)@ == clear_avatar(old(self)@, display_name@),
    {
        let ghost v = self@;
        let previous = self.avatar_by_display.remove(display_name);
        match previous {
            None => {
                assert(self@.avatar_of =~= v.avatar_of);
                assert(self@ == v);
            },
            Some(prev) => {
                let ghost a = prev@;
                assert(a == v.avatar_of[display_name@]);
                let taken = self.displays_by_avatar.remove(prev.as_str());
                match taken {
                    None => {
                        assert(v.displays_of[a].contains(display_name@));
                        assert(false);
                    },
                    Some(mut displays) => {
                        displays.remove(display_name);
                        if !displays.is_empty() {
                            self.displays_by_avatar.insert(prev.as_str(), displays);
                        }
                    },
                }
                proof {
                    let w = clear_avatar(v, display_name@);
                    assert(self@.active =~= w.active);
                    assert(self@.avatar_of =~= w.avatar_of);
                    assert(self@.displays_of =~= w.displays_of);
                    assert(self@ == w);
                }
            },
        }
    }

    /// Records that a user with id `user_id` and display name `display_name`
    /// has joined.
    pub fn on_player_join(&mut self, display_name: &str, user_id: &str)
        requires
            old(self).wf(),
        ensures
            final(self).wf(),
            final(self)@ == player_join(old(self)@, display_name@, user_id@),
    {
        let ghost v = self@;
        let mut users = match self.active_users_by_display.remove(display_name) {
            Some(u) => u,
            None => StrSet::new(),
        };
        users.insert(user_id);
        let is_ambiguous = users.len() > 1;
        self.active_users_by_display.insert(display_name, users);
        let ghost v1 = TrackerView {
            active: v.active.insert(display_name@, users@),
            ..v
        };
        proof {
            assert(self@.active =~= v1.active);
            assert(self@ == v1);
        }
        if is_ambiguous {
            self.clear_avatar_for_display(display_name);
        }
    }

    /// Records that the user with id `user_id` and display name `display_name`
    /// has left, and forgets the avatar of that display name.
    pub fn on_player_left(&mut self, display_name: &str, user_id: &str)
        requires
            old(self).wf(),
        ensures
            final(self).wf(),
            final(self)@ == player_left(old(self)@, display_name@, user_id@),
    {
        let ghost v = self@;
        match self.active_users_by_display.remove(display_name) {
            Some(mut users) => {
                users.remove(user_id);
                if !users.is_empty() {
                    self.active_users_by_display.insert(display_name, users);
                }
            },
            None => {},
        }
        proof {
            let w = if v.active.contains_key(display_name@) {
                let us = v.active[display_name@].remove(user_id@);
                if us == Set::<Seq<char>>::empty() {
                    TrackerView { active: v.active.remove(display_name@), ..v }
                } else {
                    TrackerView { active: v.active.insert(display_name@, us), ..v }
                }
            } else {
                v
            };
            assert(self@.active =~= w.active);
            assert(self@ == w);
        }
        self.clear_avatar_for_display(display_name);
    }

    /// Records that display name `display_name` switched to avatar
    /// `avatar_name`.
    pub fn on_avatar_switch(&mut self, display_name: &str, avatar_name: &str)
        requires
            old(self).wf(),
        ensures
            final(self).wf(),
            final(self)@ == avatar_switch(old(self)@, display_name@, avatar_name@),
    {
        self.clear_avatar_for_display(display_name);
        let ghost v1 = self@;
        self.avatar_by_display.insert(display_name, avatar_name.to_string());
        let mut displays = match self.displays_by_avatar.remove(avatar_name) {
            Some(s) => s,
            None => StrSet::new(),
        };
        displays.insert(display_name);
        self.displays_by_avatar.insert(avatar_name, displays);
        proof {
            lemma_avatar_switch_consistent(v1, display_name@, avatar_name@);
            let w = avatar_switch(v1, display_name@, avatar_name@);
            assert(!v1.avatar_of.contains_key(display_name@));
            assert(self@.active =~= w.active);
            assert(self@.avatar_of =~= w.avatar_of);
            assert(self@.displays_of =~= w.displays_of);
            assert(self@ == w);
        }
    }

    /// Records a finished avatar download line.  Several before the next
    /// unpack line make the whole group ambiguous, whatever their statuses.
    pub fn on_avatar_download(&mut self, status: Option<FriendStatus>, line_number: usize)
        requires
            old(self).wf(),
        ensures
            final(self).wf(),
            final(self)@ == avatar_download(old(self)@, status, line_number),
    {
        self.pending_download = match self.pending_download {
            PendingDownload::Empty => PendingDownload::One { status, line_number },
            _ => PendingDownload::Ambiguous,
        };
    }

    /// The avatar named by the unpack line, when exactly one avatar fits.
    fn find_unique_avatar(&self, unpack_payload: &str) -> (r: Option<&String>)
        requires
            self.wf(),
        ensures
            r matches Some(a) ==> unique_candidate(self@.displays_of, unpack_payload@) == Some(a@),
            r is None ==> unique_candidate(self@.displays_of, unpack_payload@) is None,
    {
        let ghost v = self@;
        proof {
            self.displays_by_avatar.lemma_keys();
        }
        let n = self.displays_by_avatar.len();
        let mut found: Option<usize> = None;
        let mut i: usize = 0;
        while i < n
            invariant
                n == self.displays_by_avatar.size(),
                i <= n,
                v == self@,
                self.wf(),
                found matches Some(f) ==> f < i && is_candidate(
                    v.displays_of,
                    unpack_payload@,
                    self.displays_by_avatar.key_at(f as int),
                ),
                forall|j: int|
                    0 <= j < i && is_candidate(v.displays_of, unpack_payload@, self.displays_by_avatar.key_at(j))
                        ==> found == Some(j as usize),
            decreases n - i,
        {
            let key = self.displays_by_avatar.key(i);
            let pattern = concat2(key.as_str(), " by ");
            proof {
                self.displays_by_avatar.lemma_keys();
            }
            if text_starts_with(unpack_payload, pattern.as_str()) {
                if found.is_some() {
                    proof {
                        let f = found.unwrap() as int;
                        let a = self.displays_by_avatar.key_at(f);
                        let b = self.displays_by_avatar.key_at(i as int);
                        assert(a != b);
                        assert(is_candidate(v.displays_of, unpack_payload@, a));
                        assert(is_candidate(v.displays_of, unpack_payload@, b));
                        assert(unique_candidate(v.displays_of, unpack_payload@) is None);
                    }
                    return None;
                }
                found = Some(i);
            }
            i = i + 1;
        }
        match found {
            None => {
                proof {
                    assert forall|a: Seq<char>| !is_candidate(v.displays_of, unpack_payload@, a) by {
                        if is_candidate(v.displays_of, unpack_payload@, a) {
                            let j = choose|j: int|
                                0 <= j < self.displays_by_avatar.size()
                                    && self.displays_by_avatar.key_at(j) == a;
                        }
                    }
                }
                None
            },
            Some(f) => {
                let key = self.displays_by_avatar.key(f);
                proof {
                    let a = key@;
                    assert forall|b: Seq<char>| is_candidate(v.displays_of, unpack_payload@, b) implies b == a by {
                        let j = choose|j: int|
                            0 <= j < self.displays_by_avatar.size()
                                && self.displays_by_avatar.key_at(j) == b;
                    }
                    let c = choose|c: Seq<char>| is_candidate(v.displays_of, unpack_payload@, c);
                    assert(c == a);
                }
                Some(key)
            },
        }
    }

    /// Pairs an unpack line with the single preceding download.
    ///
    /// Returns the target user id and the value to store (0: non-friend,
    /// 1: friend, 2: undetermined).  Every unpack line consumes the pending
    /// downloads.
    pub fn on_avatar_unpack(&mut self, unpack_payload: &str, line_number: usize) -> (r: Option<
        (String, i64),
    >)
        requires
            old(self).wf(),
        ensures
            final(self).wf(),
            final(self)@ == avatar_unpack(old(self)@, unpack_payload@, line_number).0,
            r matches Some(p) ==> avatar_unpack(old(self)@, unpack_payload@, line_number).1
                == Some((p.0@, p.1)),
            r is None ==> avatar_unpack(old(self)@, unpack_payload@, line_number).1 is None,
    {
        let ghost v = self@;
        let pending = self.pending_download;
        self.pending_download = PendingDownload::Empty;
        let (status, download_line) = match pending {
            PendingDownload::One { status: Some(status), line_number: download_line } => (
                status,
                download_line,
            ),
            _ => {
                return None;
            },
        };
        if line_number < download_line || line_number - download_line
            > MAX_DOWNLOAD_UNPACK_LINE_GAP {
            return None;
        }
        let ghost v0 = TrackerView { pending: PendingDownload::Empty, ..v };
        assert(self@ == v0) by {
            assert(self@.active =~= v0.active);
            assert(self@.avatar_of =~= v0.avatar_of);
            assert(self@.displays_of =~= v0.displays_of);
        }
        let avatar = match self.find_unique_avatar(unpack_payload) {
            Some(a) => a,
            None => {
                return None;
            },
        };
        let displays = match self.displays_by_avatar.get(avatar.as_str()) {
            Some(d) => d,
            None => {
                return None;
            },
        };
        let display_name = match displays.single() {
            Some(d) => d,
            None => {
                return None;
            },
        };
        proof {
            assert(displays@.contains(display_name@));
            assert(the_element(displays@) == display_name@);
        }
        let users = match self.active_users_by_display.get(display_name.as_str()) {
            Some(u) => u,
            None => {
                return None;
            },
        };
        let user = match users.single() {
            Some(u) => u,
            None => {
                return None;
            },
        };
        proof {
            assert(users@.contains(user@));
            assert(the_element(users@) == user@);
            assert(unpack_target(v.displays_of, v.active, unpack_payload@) == Some(user@));
        }
        let user_id = user.clone();
        let value = match self.observed_by_user.get(user_id.as_str()) {
            None => {
                self.observed_by_user.insert(user_id.as_str(), ObservedStatus::Known(status));
                status.db_value()
            },
            Some(ObservedStatus::Known(previous)) => {
                if *previous == status {
                    status.db_value()
                } else {
                    self.observed_by_user.insert(user_id.as_str(), ObservedStatus::Conflict);
                    UNKNOWN_FRIEND_STATUS
                }
            },
            Some(ObservedStatus::Conflict) => UNKNOWN_FRIEND_STATUS,
        };
        proof {
            assert(user_id@ == user@);
            assert(v.pending == PendingDownload::One { status: Some(status), line_number: download_line });
            assert(!(line_number < download_line || line_number - download_line > MAX_DOWNLOAD_UNPACK_LINE_GAP));
            let (obs, val) = record_status(v.observed, user_id@, status);
            assert(self@.observed =~= obs);
            assert(val == value);
            let w = avatar_unpack(v, unpack_payload@, line_number).0;
            assert(self@.active =~= w.active);
            assert(self@.avatar_of =~= w.avatar_of);
            assert(self@.displays_of =~= w.displays_of);
            assert(self@ == w);
        }
        Some((user_id, value))
    }
}

} // verus!
