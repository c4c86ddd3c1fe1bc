//! Helpers that break VRChat locations and instance access parts apart.
use vstd::prelude::*;

use crate::patterns::{capture_group, group, opt_view, regex_captures, LogPatterns, RE_USR};
use crate::text::{
    ascii_lower, chars_of, contains_char, has_prefix, has_prefix_ignore_ascii_case, owned, str_eq, sub_string,
    trim, trimmed, starts_with_ignore_ascii_case, text_starts_with, text_ends_with, has_suffix,
};

verus! {

/// The access kind a raw access part begins with, ignoring the case of ASCII
/// letters.
///
/// Lower-casing the whole part and testing the prefix gives the same answer:
/// the only characters outside ASCII whose lower case begins with an ASCII
/// letter are KELVIN SIGN (to `k`, which no access kind holds) and LATIN
/// CAPITAL LETTER I WITH DOT ABOVE (to `i` followed by a combining dot, while
/// in every access kind `i` is followed by an ASCII letter).
pub open spec fn access_type_of(raw: Seq<char>) -> Option<Seq<char>> {
    if has_prefix_ignore_ascii_case(raw, "private"@) {
        Some("private"@)
    } else if has_prefix_ignore_ascii_case(raw, "friends"@) {
        Some("friends"@)
    } else if has_prefix_ignore_ascii_case(raw, "hidden"@) {
        Some("hidden"@)
    } else if has_prefix_ignore_ascii_case(raw, "public"@) {
        Some("public"@)
    } else if has_prefix_ignore_ascii_case(raw, "group"@) {
        Some("group"@)
    } else {
        None
    }
}

/// The access type of a raw access part is the access kind it begins with,
/// ASCII case ignored: `private`, `friends`, `hidden`, `public` or `group`,
/// and none when it begins with none of them.
pub proof fn law_access_type_is_leading_kind(raw: Seq<char>)
    ensures
        has_prefix_ignore_ascii_case(raw, "private"@) <==> access_type_of(raw) == Some("private"@),
        has_prefix_ignore_ascii_case(raw, "friends"@) <==> access_type_of(raw) == Some("friends"@),
        has_prefix_ignore_ascii_case(raw, "hidden"@) <==> access_type_of(raw) == Some("hidden"@),
        has_prefix_ignore_ascii_case(raw, "public"@) <==> access_type_of(raw) == Some("public"@),
        has_prefix_ignore_ascii_case(raw, "group"@) <==> access_type_of(raw) == Some("group"@),
        access_type_of(raw) is None <==> !has_prefix_ignore_ascii_case(raw, "private"@)
            && !has_prefix_ignore_ascii_case(raw, "friends"@) && !has_prefix_ignore_ascii_case(
            raw,
            "hidden"@,
        ) && !has_prefix_ignore_ascii_case(raw, "public"@) && !has_prefix_ignore_ascii_case(
            raw,
            "group"@,
        ),
{
    reveal_strlit("private");
    reveal_strlit("friends");
    reveal_strlit("hidden");
    reveal_strlit("public");
    reveal_strlit("group");
    let kinds = seq!["private"@, "friends"@, "hidden"@, "public"@, "group"@];
    assert forall|i: int, j: int|
        0 <= i < j < 5 && #[trigger] has_prefix_ignore_ascii_case(raw, kinds[i])
            && #[trigger] has_prefix_ignore_ascii_case(raw, kinds[j]) implies false by {
        if i == 0 && j == 3 {
            assert(ascii_lower(raw[1]) == ascii_lower(kinds[i][1]));
            assert(ascii_lower(raw[1]) == ascii_lower(kinds[j][1]));
        } else {
            assert(ascii_lower(raw[0]) == ascii_lower(kinds[i][0]));
            assert(ascii_lower(raw[0]) == ascii_lower(kinds[j][0]));
        }
    }
    assert(kinds[0] == "private"@ && kinds[1] == "friends"@ && kinds[2] == "hidden"@ && kinds[3]
        == "public"@ && kinds[4] == "group"@);
}

/// The instance owner written in a raw access part: the first `(usr_...)`.
pub open spec fn instance_owner_of(raw: Seq<char>) -> Option<Seq<char>> {
    group(regex_captures(RE_USR@, raw), 1)
}

fn access_kind(raw: &Vec<char>, kind: &str) -> (r: bool)
    ensures
        r == has_prefix_ignore_ascii_case(raw@, kind@),
{
    let k = chars_of(kind);
    starts_with_ignore_ascii_case(raw, &k)
}

/// Normalises a raw instance access part into its access kind and the
/// instance owner's user id.
pub fn parse_access_type(patterns: &LogPatterns, access_raw: &str) -> (r: (
    Option<String>,
    Option<String>,
))
    ensures
        opt_view(r.0) == access_type_of(access_raw@),
        opt_view(r.1) == instance_owner_of(access_raw@),
{
    let raw = chars_of(access_raw);
    let access_type = if access_kind(&raw, "private") {
        Some(owned("private"))
    } else if access_kind(&raw, "friends") {
        Some(owned("friends"))
    } else if access_kind(&raw, "hidden") {
        Some(owned("hidden"))
    } else if access_kind(&raw, "public") {
        Some(owned("public"))
    } else if access_kind(&raw, "group") {
        Some(owned("group"))
    } else {
        None
    };
    let caps = patterns.usr(access_raw);
    let instance_owner = capture_group(&caps, 1);
    (access_type, instance_owner)
}

/// The notification kinds that are kept.
pub open spec fn is_collectible_kind(kind: Seq<char>) -> bool {
    let t = trimmed(kind);
    t == "boop"@ || t == "friendRequest"@ || t == "requestInvite"@ || t == "invite"@ || t
        == "group"@
}

/// Whether a notification of this kind is kept.
pub fn is_collectible_notification(notif_type: &str) -> (r: bool)
    ensures
        r == is_collectible_kind(notif_type@),
{
    let t = trim(notif_type);
    let t = t.as_str();
    str_eq(t, "boop") || str_eq(t, "friendRequest") || str_eq(t, "requestInvite") || str_eq(
        t,
        "invite",
    ) || str_eq(t, "group")
}

/// `s` cut at every `c`, as `str::split` cuts it: there is always one more
/// piece than there are separators.
pub open spec fn split_on(s: Seq<char>, c: char) -> Seq<Seq<char>>
    decreases s.len(),
{
    if s.len() == 0 {
        seq![Seq::<char>::empty()]
    } else {
        let r = split_on(s.drop_last(), c);
        if s.last() == c {
            r.push(Seq::<char>::empty())
        } else {
            r.update(r.len() - 1, r.last().push(s.last()))
        }
    }
}

/// The pieces of a split are never none.
pub proof fn lemma_split_on_nonempty(s: Seq<char>, c: char)
    ensures
        split_on(s, c).len() >= 1,
    decreases s.len(),
{
    if s.len() > 0 {
        lemma_split_on_nonempty(s.drop_last(), c);
    }
}

/// The views of a sequence of strings.
pub open spec fn views(v: Seq<String>) -> Seq<Seq<char>> {
    v.map_values(|s: String| s@)
}

/// Cuts `s` at every `c`.
pub fn split_on_char(s: &str, c: char) -> (r: Vec<String>)
    ensures
        views(r@) == split_on(s@, c),
{
    let v = chars_of(s);
    let mut parts: Vec<String> = Vec::new();
    let mut start: usize = 0;
    let mut i: usize = 0;
    proof {
        assert(s@.take(0) =~= Seq::<char>::empty());
        assert(views(parts@) =~= Seq::<Seq<char>>::empty());
        assert(s@.subrange(0, 0) =~= Seq::<char>::empty());
    }
    while i < v.len()
        invariant
            v@ == s@,
            start <= i <= v.len(),
            split_on(s@.take(i as int), c) == views(parts@).push(s@.subrange(start as int, i as int)),
        decreases v.len() - i,
    {
        let ghost before = views(parts@);
        proof {
            assert(s@.take(i + 1).drop_last() =~= s@.take(i as int));
            assert(s@.take(i + 1).last() == v@[i as int]);
            lemma_split_on_nonempty(s@.take(i as int), c);
        }
        if v[i] == c {
            let piece = sub_string(s, start, i);
            let ghost old_start = start;
            parts.push(piece);
            start = i + 1;
            proof {
                assert(views(parts@) =~= before.push(s@.subrange(old_start as int, i as int)));
                assert(s@.subrange((i + 1) as int, (i + 1) as int) =~= Seq::<char>::empty());
            }
        } else {
            proof {
                assert(s@.subrange(start as int, i + 1) =~= s@.subrange(start as int, i as int).push(
                    v@[i as int],
                ));
            }
        }
        i = i + 1;
    }
    let last = sub_string(s, start, v.len());
    let ghost before = views(parts@);
    parts.push(last);
    proof {
        assert(s@.take(v.len() as int) =~= s@);
        assert(views(parts@) =~= before.push(s@.subrange(start as int, v.len() as int)));
    }
    parts
}

/// The text before and after the first `c` of `s`, as `str::split_once`
/// gives it.
pub open spec fn split_once_char(s: Seq<char>, c: char) -> Option<(Seq<char>, Seq<char>)> {
    if contains_char(s, c) {
        let i = choose|i: int|
            0 <= i < s.len() && s[i] == c && forall|j: int| 0 <= j < i ==> s[j] != c;
        Some((s.take(i), s.skip(i + 1)))
    } else {
        None
    }
}

/// The position of the first `c` of `s`.
pub fn first_char_index(s: &Vec<char>, c: char) -> (r: Option<usize>)
    ensures
        r matches Some(i) ==> i < s.len() && s@[i as int] == c && forall|j: int|
            0 <= j < i ==> s@[j] != c,
        r is None ==> !contains_char(s@, c),
{
    let mut i: usize = 0;
    while i < s.len()
        invariant
            i <= s.len(),
            forall|j: int| 0 <= j < i ==> s@[j] != c,
        decreases s.len() - i,
    {
        if s[i] == c {
            return Some(i);
        }
        i = i + 1;
    }
    None
}

/// Cuts `s` at its first `c`.
pub fn split_once(s: &str, c: char) -> (r: Option<(String, String)>)
    ensures
        r matches Some(p) ==> split_once_char(s@, c) == Some((p.0@, p.1@)),
        r is None ==> split_once_char(s@, c) is None,
{
    let v = chars_of(s);
    match first_char_index(&v, c) {
        None => None,
        Some(i) => {
            proof {
                let k = choose|k: int|
                    0 <= k < s@.len() && s@[k] == c && forall|j: int| 0 <= j < k ==> s@[j] != c;
                if k < i {
                } else if k > i {
                    assert(s@[i as int] == c);
                }
                assert(k == i);
            }
            let before = sub_string(s, 0, i);
            let after = sub_string(s, i + 1, v.len());
            proof {
                assert(s@.take(i as int) =~= s@.subrange(0, i as int));
                assert(s@.skip(i + 1) =~= s@.subrange(i + 1, v.len() as int));
            }
            Some((before, after))
        },
    }
}

/// The region written in one `~`-separated piece: `region(xx)`.
pub open spec fn region_of(part: Seq<char>) -> Option<Seq<char>> {
    if has_prefix(part, "region("@) && has_suffix(part.skip(7), ")"@) {
        Some(part.subrange(7, part.len() - 1))
    } else {
        None
    }
}

/// The region of the last piece that names one.
pub open spec fn last_region(parts: Seq<Seq<char>>) -> Option<Seq<char>>
    decreases parts.len(),
{
    if parts.len() == 0 {
        None
    } else {
        match region_of(parts.last()) {
            Some(r) => Some(r),
            None => last_region(parts.drop_last()),
        }
    }
}

/// Structured location metadata parsed from a VRChat location string.
#[derive(Clone)]
pub struct ParsedLocation {
    pub instance_id: Option<String>,
    pub access_type: Option<String>,
    pub instance_owner: Option<String>,
    pub region: Option<String>,
}

/// The view of a parsed location.
pub struct ParsedLocationView {
    pub instance_id: Option<Seq<char>>,
    pub access_type: Option<Seq<char>>,
    pub instance_owner: Option<Seq<char>>,
    pub region: Option<Seq<char>>,
}

impl ParsedLocation {
    /// The fields as character sequences.
    pub open spec fn view(&self) -> ParsedLocationView {
        ParsedLocationView {
            instance_id: opt_view(self.instance_id),
            access_type: opt_view(self.access_type),
            instance_owner: opt_view(self.instance_owner),
            region: opt_view(self.region),
        }
    }

    /// A location with no field known.
    pub fn empty() -> (r: Self)
        ensures
            r@ == empty_location(),
    {
        ParsedLocation { instance_id: None, access_type: None, instance_owner: None, region: None }
    }
}

/// The location with no field known.
pub open spec fn empty_location() -> ParsedLocationView {
    ParsedLocationView { instance_id: None, access_type: None, instance_owner: None, region: None }
}

/// What a location string holds: after `wrld_<id>:`, the instance id, the
/// access part and further `~`-separated pieces, of which the last
/// `region(..)` gives the region.
pub open spec fn location_of(location: Seq<char>) -> ParsedLocationView {
    let t = trimmed(location);
    if !has_prefix(t, "wrld_"@) {
        empty_location()
    } else {
        match split_once_char(t, ':') {
            None => empty_location(),
            Some((_, tail)) => {
                let parts = split_on(tail, '~');
                ParsedLocationView {
                    instance_id: Some(parts[0]),
                    access_type: if parts.len() > 1 {
                        access_type_of(parts[1])
                    } else {
                        None
                    },
                    instance_owner: if parts.len() > 1 {
                        instance_owner_of(parts[1])
                    } else {
                        None
                    },
                    region: if parts.len() >= 2 {
                        last_region(parts.skip(2))
                    } else {
                        None
                    },
                }
            },
        }
    }
}

/// The region named by a piece.
fn piece_region(part: &str) -> (r: Option<String>)
    ensures
        opt_view(r) == region_of(part@),
{
    if !text_starts_with(part, "region(") {
        return None;
    }
    let v = chars_of(part);
    proof {
        reveal_strlit("region(");
    }
    let rest = sub_string(part, 7, v.len());
    if !text_ends_with(rest.as_str(), ")") {
        proof {
            assert(rest@ =~= part@.skip(7));
        }
        return None;
    }
    proof {
        reveal_strlit(")");
        assert(rest@ =~= part@.skip(7));
    }
    Some(sub_string(part, 7, v.len() - 1))
}

/// Breaks a VRChat location string into instance id, access kind, owner and
/// region.
pub fn parse_location(patterns: &LogPatterns, location: &str) -> (r: ParsedLocation)
    ensures
        r@ == location_of(location@),
{
    let trimmed_text = trim(location);
    let t = trimmed_text.as_str();
    if !text_starts_with(t, "wrld_") {
        return ParsedLocation::empty();
    }
    let tail = match split_once(t, ':') {
        None => {
            return ParsedLocation::empty();
        },
        Some((_world_id, tail)) => tail,
    };
    let parts = split_on_char(tail.as_str(), '~');
    proof {
        lemma_split_on_nonempty(tail@, '~');
    }
    let mut result = ParsedLocation::empty();
    result.instance_id = Some(parts[0].clone());
    if parts.len() > 1 {
        let (access_type, instance_owner) = parse_access_type(patterns, parts[1].as_str());
        result.access_type = access_type;
        result.instance_owner = instance_owner;
    }
    let ghost pv = views(parts@);
    if parts.len() >= 2 {
        let mut i: usize = 2;
        proof {
            assert(pv.skip(2).take(0) =~= Seq::<Seq<char>>::empty());
        }
        while i < parts.len()
            invariant
                pv == views(parts@),
                2 <= i <= parts.len(),
                opt_view(result.region) == last_region(pv.skip(2).take(i - 2)),
                opt_view(result.instance_id) == Some(pv[0]),
                opt_view(result.access_type) == access_type_of(pv[1]),
                opt_view(result.instance_owner) == instance_owner_of(pv[1]),
            decreases parts.len() - i,
        {
            proof {
                assert(pv.skip(2).take(i - 1).drop_last() =~= pv.skip(2).take(i - 2));
                assert(pv.skip(2).take(i - 1).last() == pv[i as int]);
            }
            match piece_region(parts[i].as_str()) {
                Some(region) => {
                    result.region = Some(region);
                },
                None => {},
            }
            i = i + 1;
        }
        proof {
            assert(pv.len() == parts@.len());
            assert(pv.skip(2).take(parts.len() - 2) =~= pv.skip(2));
        }
    }
    result
}

} // verus!
