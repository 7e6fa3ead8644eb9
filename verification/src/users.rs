//! Structural decoders for users, communities and mutes.
//!
//! A user may list the communities they moderate, and a community may list
//! the users moderating it, so these decoders are mutually recursive; each
//! recursion step descends into a strictly smaller part of the JSON tree.

use crate::decode::{
    community_rule_list_matches, decode_community_rule_list, decode_opt_image,
    decode_report_details, opt_image_matches, report_details_matches,
};
use crate::json::{
    get_bool, get_i32, get_opt_bool, get_opt_str, get_opt_time, get_str, get_time, lookup_field,
    lemma_field_arr_decreases, opt_bool, opt_str, opt_time, req_bool, req_i32, req_str, req_time,
    slookup, JsonValue,
};
use crate::types::{Community, Mute, Mutes, User};
use vstd::prelude::*;

verus! {

/// `out` is the [`User`] described by the object `v`.
pub open spec fn user_matches(v: JsonValue, out: User) -> bool
    decreases v,
    via user_matches_decreases
{
    match v {
        JsonValue::Obj(fields) => {
            let f = fields@;
            &&& req_str(f, "id"@) == Some(out.id)
            &&& req_str(f, "username"@) == Some(out.username)
            &&& opt_str(f, "email"@) == Some(out.email)
            &&& opt_time(f, "emailConfirmedAt"@) == Some(out.email_confirmed_at)
            &&& opt_str(f, "aboutMe"@) == Some(out.about_me)
            &&& req_i32(f, "points"@) == Some(out.points)
            &&& req_bool(f, "isAdmin"@) == Some(out.is_admin)
            &&& opt_image_matches(slookup(f, "proPic"@), out.pro_pic)
            &&& match slookup(f, "badges"@) {
                Some(JsonValue::Arr(a)) => crate::decode::badge_list_matches(a@, out.badges@),
                _ => false,
            }
            &&& req_i32(f, "noPosts"@) == Some(out.no_posts)
            &&& req_i32(f, "noComments"@) == Some(out.no_comments)
            &&& req_time(f, "createdAt"@) == Some(out.created_at)
            &&& req_bool(f, "deleted"@) == Some(out.deleted)
            &&& opt_time(f, "deletedAt"@) == Some(out.deleted_at)
            &&& req_bool(f, "upvoteNotificationsOff"@) == Some(out.upvote_notifications_off)
            &&& req_bool(f, "replyNotificationsOff"@) == Some(out.reply_notifications_off)
            &&& req_str(f, "homeFeed"@) == Some(out.home_feed)
            &&& req_bool(f, "rememberFeedSort"@) == Some(out.remember_feed_sort)
            &&& req_bool(f, "embedsOff"@) == Some(out.embeds_off)
            &&& req_bool(f, "hideUserProfilePictures"@) == Some(out.hide_user_profile_pictures)
            &&& opt_time(f, "bannedAt"@) == Some(out.banned_at)
            &&& req_bool(f, "isBanned"@) == Some(out.is_banned)
            &&& req_i32(f, "notificationsNewCount"@) == Some(out.notifications_new_count)
            &&& match slookup(f, "moddingList"@) {
                None => out.modding_list is None,
                Some(JsonValue::Null) => out.modding_list is None,
                Some(JsonValue::Arr(a)) => out.modding_list is Some && community_list_matches(
                    a@,
                    out.modding_list->0@,
                ),
                Some(_) => false,
            }
        },
        _ => false,
    }
}

#[via_fn]
proof fn user_matches_decreases(v: JsonValue, out: User) {
    if let JsonValue::Obj(fields) = v {
        if let Some(JsonValue::Arr(a)) = slookup(fields@, "moddingList"@) {
            lemma_field_arr_decreases(v, fields, "moddingList"@, a);
        }
    }
}

/// The elements of `a` describe the users `out`, element by element.
pub open spec fn user_list_matches(a: Seq<JsonValue>, out: Seq<User>) -> bool
    decreases a,
{
    &&& a.len() == out.len()
    &&& forall|i: int| 0 <= i < a.len() ==> user_matches(a[i], #[trigger] out[i])
}

/// `out` is the [`Community`] described by the object `v`.
pub open spec fn community_matches(v: JsonValue, out: Community) -> bool
    decreases v,
    via community_matches_decreases
{
    match v {
        JsonValue::Obj(fields) => {
            let f = fields@;
            &&& req_str(f, "id"@) == Some(out.id)
            &&& req_str(f, "userId"@) == Some(out.user_id)
            &&& req_str(f, "name"@) == Some(out.name)
            &&& req_bool(f, "nsfw"@) == Some(out.nsfw)
            &&& opt_str(f, "about"@) == Some(out.about)
            &&& req_i32(f, "noMembers"@) == Some(out.no_members)
            &&& opt_image_matches(slookup(f, "proPic"@), out.pro_pic)
            &&& opt_image_matches(slookup(f, "bannerImage"@), out.banner_image)
            &&& req_time(f, "createdAt"@) == Some(out.created_at)
            &&& opt_time(f, "deletedAt"@) == Some(out.deleted_at)
            &&& opt_bool(f, "isDefault"@) == Some(out.is_default)
            &&& opt_bool(f, "userJoined"@) == Some(out.user_joined)
            &&& opt_bool(f, "userMod"@) == Some(out.user_mod)
            &&& match slookup(f, "mods"@) {
                None => out.mods is None,
                Some(JsonValue::Null) => out.mods is None,
                Some(JsonValue::Arr(a)) => out.mods is Some && user_list_matches(
                    a@,
                    out.mods->0@,
                ),
                Some(_) => false,
            }
            &&& match slookup(f, "rules"@) {
                None => out.rules is None,
                Some(JsonValue::Null) => out.rules is None,
                Some(JsonValue::Arr(a)) => out.rules is Some && community_rule_list_matches(
                    a@,
                    out.rules->0@,
                ),
                Some(_) => false,
            }
            &&& match slookup(f, "reportsDetails"@) {
                None => out.report_details is None,
                Some(JsonValue::Null) => out.report_details is None,
                Some(x) => out.report_details is Some && report_details_matches(
                    x,
                    out.report_details->0,
                ),
            }
        },
        _ => false,
    }
}

#[via_fn]
proof fn community_matches_decreases(v: JsonValue, out: Community) {
    if let JsonValue::Obj(fields) = v {
        if let Some(JsonValue::Arr(a)) = slookup(fields@, "mods"@) {
            lemma_field_arr_decreases(v, fields, "mods"@, a);
        }
    }
}

/// The elements of `a` describe the communities `out`, element by element.
pub open spec fn community_list_matches(a: Seq<JsonValue>, out: Seq<Community>) -> bool
    decreases a,
{
    &&& a.len() == out.len()
    &&& forall|i: int| 0 <= i < a.len() ==> community_matches(a[i], #[trigger] out[i])
}

/// Decodes a [`User`].
pub fn decode_user(v: &JsonValue) -> (r: Option<User>)
    ensures
        match r {
            Some(out) => user_matches(*v, out),
            None => forall|out: User| !user_matches(*v, out),
        },
    decreases *v,
{
    match v {
        JsonValue::Obj(fields) => {
            let id = match get_str(fields, "id") {
                Some(x) => x,
                None => {
                    return None;
                },
            };
            let username = match get_str(fields, "username") {
                Some(x) => x,
                None => {
                    return None;
                },
            };
            let email = match get_opt_str(fields, "email") {
                Some(x) => x,
                None => {
                    return None;
                },
            };
            let email_confirmed_at = match get_opt_time(fields, "emailConfirmedAt") {
                Some(x) => x,
                None => {
                    return None;
                },
            };
            let about_me = match get_opt_str(fields, "aboutMe") {
                Some(x) => x,
                None => {
                    return None;
                },
            };
            let points = match get_i32(fields, "points") {
                Some(x) => x,
                None => {
                    return None;
                },
            };
            let is_admin = match get_bool(fields, "isAdmin") {
                Some(x) => x,
                None => {
                    return None;
                },
            };
            let pro_pic = match decode_opt_image(fields, "proPic") {
                Some(x) => x,
                None => {
                    return None;
                },
            };
            let badges = match lookup_field(fields, "badges") {
                Some(w) => match w {
                    JsonValue::Arr(a) => match crate::decode::decode_badge_list(a) {
                        Some(xs) => xs,
                        None => {
                            return None;
                        },
                    },
                    _ => {
                        return None;
                    },
                },
                None => {
                    return None;
                },
            };
            let no_posts = match get_i32(fields, "noPosts") {
                Some(x) => x,
                None => {
                    return None;
                },
            };
            let no_comments = match get_i32(fields, "noComments") {
                Some(x) => x,
                None => {
                    return None;
                },
            };
            let created_at = match get_time(fields, "createdAt") {
                Some(x) => x,
                None => {
                    return None;
                },
            };
            let deleted = match get_bool(fields, "deleted") {
                Some(x) => x,
                None => {
                    return None;
                },
            };
            let deleted_at = match get_opt_time(fields, "deletedAt") {
                Some(x) => x,
                None => {
                    return None;
                },
            };
            let upvote_notifications_off = match get_bool(fields, "upvoteNotificationsOff") {
                Some(x) => x,
                None => {
                    return None;
                },
            };
            let reply_notifications_off = match get_bool(fields, "replyNotificationsOff") {
                Some(x) => x,
                None => {
                    return None;
                },
            };
            let home_feed = match get_str(fields, "homeFeed") {
                Some(x) => x,
                None => {
                    return None;
                },
            };
            let remember_feed_sort = match get_bool(fields, "rememberFeedSort") {
                Some(x) => x,
                None => {
                    return None;
                },
            };
            let embeds_off = match get_bool(fields, "embedsOff") {
                Some(x) => x,
                None => {
                    return None;
                },
            };
            let hide_user_profile_pictures = match get_bool(fields, "hideUserProfilePictures") {
                Some(x) => x,
                None => {
                    return None;
                },
            };
            let banned_at = match get_opt_time(fields, "bannedAt") {
                Some(x) => x,
                None => {
                    return None;
                },
            };
            let is_banned = match get_bool(fields, "isBanned") {
                Some(x) => x,
                None => {
                    return None;
                },
            };
            let notifications_new_count = match get_i32(fields, "notificationsNewCount") {
                Some(x) => x,
                None => {
                    return None;
                },
            };
            let modding_list = match lookup_field(fields, "moddingList") {
                None => None,
                Some(w) => match w {
                    JsonValue::Null => None,
                    JsonValue::Arr(a) => {
                        proof {
                            lemma_field_arr_decreases(*v, *fields, "moddingList"@, *a);
                        }
                        match decode_community_list(a) {
                            Some(xs) => Some(xs),
                            None => {
                                proof {
                                    assert forall|out: User| !user_matches(*v, out) by {
                                        if user_matches(*v, out) {
                                            assert(out.modding_list is Some);
                                            assert(community_list_matches(a@, out.modding_list->0@));
                                            assert(false);
                                        }
                                    }
                                }
                                return None;
                            },
                        }
                    },
                    _ => {
                        return None;
                    },
                },
            };
            Some(
                User {
                    id,
                    username,
                    email,
                    email_confirmed_at,
                    about_me,
                    points,
                    is_admin,
                    pro_pic,
                    badges,
                    no_posts,
                    no_comments,
                    created_at,
                    deleted,
                    deleted_at,
                    upvote_notifications_off,
                    reply_notifications_off,
                    home_feed,
                    remember_feed_sort,
                    embeds_off,
                    hide_user_profile_pictures,
                    banned_at,
                    is_banned,
                    notifications_new_count,
                    modding_list,
                },
            )
        },
        _ => None,
    }
}

/// Decodes an array of users.
pub fn decode_user_list(arr: &Vec<JsonValue>) -> (r: Option<Vec<User>>)
    ensures
        match r {
            Some(out) => user_list_matches(arr@, out@),
            None => forall|out: Seq<User>| !user_list_matches(arr@, out),
        },
    decreases arr@,
{
    let mut out: Vec<User> = Vec::new();
    let mut i: usize = 0;
    while i < arr.len()
        invariant
            i <= arr@.len(),
            out@.len() == i,
            forall|j: int| 0 <= j < i ==> user_matches(arr@[j], #[trigger] out@[j]),
        decreases arr@.len() - i,
    {
        match decode_user(&arr[i]) {
            Some(x) => {
                out.push(x);
            },
            None => {
                proof {
                    assert forall|o: Seq<User>| !user_list_matches(arr@, o) by {
                        if user_list_matches(arr@, o) {
                            assert(user_matches(arr@[i as int], o[i as int]));
                        }
                    }
                }
                return None;
            },
        }
        i += 1;
    }
    Some(out)
}

/// Decodes a [`Community`].
pub fn decode_community(v: &JsonValue) -> (r: Option<Community>)
    ensures
        match r {
            Some(out) => community_matches(*v, out),
            None => forall|out: Community| !community_matches(*v, out),
        },
    decreases *v,
{
    match v {
        JsonValue::Obj(fields) => {
            let id = match get_str(fields, "id") {
                Some(x) => x,
                None => {
                    return None;
                },
            };
            let user_id = match get_str(fields, "userId") {
                Some(x) => x,
                None => {
                    return None;
                },
            };
            let name = match get_str(fields, "name") {
                Some(x) => x,
                None => {
                    return None;
                },
            };
            let nsfw = match get_bool(fields, "nsfw") {
                Some(x) => x,
                None => {
                    return None;
                },
            };
            let about = match get_opt_str(fields, "about") {
                Some(x) => x,
                None => {
                    return None;
                },
            };
            let no_members = match get_i32(fields, "noMembers") {
                Some(x) => x,
                None => {
                    return None;
                },
            };
            let pro_pic = match decode_opt_image(fields, "proPic") {
                Some(x) => x,
                None => {
                    return None;
                },
            };
            let banner_image = match decode_opt_image(fields, "bannerImage") {
                Some(x) => x,
                None => {
                    return None;
                },
            };
            let created_at = match get_time(fields, "createdAt") {
                Some(x) => x,
                None => {
                    return None;
                },
            };
            let deleted_at = match get_opt_time(fields, "deletedAt") {
                Some(x) => x,
                None => {
                    return None;
                },
            };
            let is_default = match get_opt_bool(fields, "isDefault") {
                Some(x) => x,
                None => {
                    return None;
                },
            };
            let user_joined = match get_opt_bool(fields, "userJoined") {
                Some(x) => x,
                None => {
                    return None;
                },
            };
            let user_mod = match get_opt_bool(fields, "userMod") {
                Some(x) => x,
                None => {
                    return None;
                },
            };
            let mods = match lookup_field(fields, "mods") {
                None => None,
                Some(w) => match w {
                    JsonValue::Null => None,
                    JsonValue::Arr(a) => {
                        proof {
                            lemma_field_arr_decreases(*v, *fields, "mods"@, *a);
                        }
                        match decode_user_list(a) {
                            Some(xs) => Some(xs),
                            None => {
                                proof {
                                    assert forall|out: Community| !community_matches(*v, out) by {
                                        if community_matches(*v, out) {
                                            assert(out.mods is Some);
                                            assert(user_list_matches(a@, out.mods->0@));
                                            assert(false);
                                        }
                                    }
                                }
                                return None;
                            },
                        }
                    },
                    _ => {
                        return None;
                    },
                },
            };
            let rules = match lookup_field(fields, "rules") {
                None => None,
                Some(w) => match w {
                    JsonValue::Null => None,
                    JsonValue::Arr(a) => match decode_community_rule_list(a) {
                        Some(xs) => Some(xs),
                        None => {
                            return None;
                        },
                    },
                    _ => {
                        return None;
                    },
                },
            };
            let report_details = match lookup_field(fields, "reportsDetails") {
                None => None,
                Some(w) => match w {
                    JsonValue::Null => None,
                    _ => match decode_report_details(w) {
                        Some(x) => Some(x),
                        None => {
                            return None;
                        },
                    },
                },
            };
            Some(
                Community {
                    id,
                    user_id,
                    name,
                    nsfw,
                    about,
                    no_members,
                    pro_pic,
                    banner_image,
                    created_at,
                    deleted_at,
                    is_default,
                    user_joined,
                    user_mod,
                    mods,
                    rules,
                    report_details,
                },
            )
        },
        _ => None,
    }
}

/// Decodes an array of communities.
pub fn decode_community_list(arr: &Vec<JsonValue>) -> (r: Option<Vec<Community>>)
    ensures
        match r {
            Some(out) => community_list_matches(arr@, out@),
            None => forall|out: Seq<Community>| !community_list_matches(arr@, out),
        },
    decreases arr@,
{
    let mut out: Vec<Community> = Vec::new();
    let mut i: usize = 0;
    while i < arr.len()
        invariant
            i <= arr@.len(),
            out@.len() == i,
            forall|j: int| 0 <= j < i ==> community_matches(arr@[j], #[trigger] out@[j]),
        decreases arr@.len() - i,
    {
        match decode_community(&arr[i]) {
            Some(x) => {
                out.push(x);
            },
            None => {
                proof {
                    assert forall|o: Seq<Community>| !community_list_matches(arr@, o) by {
                        if community_list_matches(arr@, o) {
                            assert(community_matches(arr@[i as int], o[i as int]));
                        }
                    }
                }
                return None;
            },
        }
        i += 1;
    }
    Some(out)
}

/// The member value `w`, missing or `null`, describes no user; otherwise it
/// is an object describing `out`.
pub open spec fn opt_user_matches(w: Option<JsonValue>, out: Option<User>) -> bool {
    match w {
        None => out is None,
        Some(JsonValue::Null) => out is None,
        Some(x) => out is Some && user_matches(x, out->0),
    }
}

/// Decodes an optional user member of an object.
pub fn decode_opt_user(fields: &Vec<(String, JsonValue)>, key: &str) -> (r: Option<Option<User>>)
    ensures
        match r {
            Some(out) => opt_user_matches(slookup(fields@, key@), out),
            None => forall|out: Option<User>| !opt_user_matches(slookup(fields@, key@), out),
        },
{
    match lookup_field(fields, key) {
        None => Some(None),
        Some(w) => match w {
            JsonValue::Null => Some(None),
            _ => match decode_user(w) {
                Some(u) => Some(Some(u)),
                None => None,
            },
        },
    }
}

/// The member value `w`, missing or `null`, describes no community;
/// otherwise it is an object describing `out`.
pub open spec fn opt_community_matches(w: Option<JsonValue>, out: Option<Community>) -> bool {
    match w {
        None => out is None,
        Some(JsonValue::Null) => out is None,
        Some(x) => out is Some && community_matches(x, out->0),
    }
}

/// Decodes an optional community member of an object.
pub fn decode_opt_community(fields: &Vec<(String, JsonValue)>, key: &str) -> (r: Option<
    Option<Community>,
>)
    ensures
        match r {
            Some(out) => opt_community_matches(slookup(fields@, key@), out),
            None => forall|out: Option<Community>|
                !opt_community_matches(slookup(fields@, key@), out),
        },
{
    match lookup_field(fields, key) {
        None => Some(None),
        Some(w) => match w {
            JsonValue::Null => Some(None),
            _ => match decode_community(w) {
                Some(c) => Some(Some(c)),
                None => None,
            },
        },
    }
}

/// `out` is the [`Mute`] described by the object `v`.
pub open spec fn mute_matches(v: JsonValue, out: Mute) -> bool {
    match v {
        JsonValue::Obj(fields) => {
            let f = fields@;
            &&& req_str(f, "id"@) == Some(out.id)
            &&& req_str(f, "type"@) == Some(out.mute_type)
            &&& opt_str(f, "mutedUserId"@) == Some(out.muted_user_id)
            &&& opt_str(f, "mutedCommunityId"@) == Some(out.muted_community_id)
            &&& req_time(f, "createdAt"@) == Some(out.created_at)
            &&& opt_user_matches(slookup(f, "mutedUser"@), out.muted_user)
            &&& opt_community_matches(slookup(f, "mutedCommunity"@), out.muted_community)
        },
        _ => false,
    }
}

/// Decodes a [`Mute`].
pub fn decode_mute(v: &JsonValue) -> (r: Option<Mute>)
    ensures
        match r {
            Some(out) => mute_matches(*v, out),
            None => forall|out: Mute| !mute_matches(*v, out),
        },
{
    match v {
        JsonValue::Obj(fields) => {
            let id = match get_str(fields, "id") {
                Some(x) => x,
                None => {
                    return None;
                },
            };
            let mute_type = match get_str(fields, "type") {
                Some(x) => x,
                None => {
                    return None;
                },
            };
            let muted_user_id = match get_opt_str(fields, "mutedUserId") {
                Some(x) => x,
                None => {
                    return None;
                },
            };
            let muted_community_id = match get_opt_str(fields, "mutedCommunityId") {
                Some(x) => x,
                None => {
                    return None;
                },
            };
            let created_at = match get_time(fields, "createdAt") {
                Some(x) => x,
                None => {
                    return None;
                },
            };
            let muted_user = match decode_opt_user(fields, "mutedUser") {
                Some(x) => x,
                None => {
                    return None;
                },
            };
            let muted_community = match decode_opt_community(fields, "mutedCommunity") {
                Some(x) => x,
                None => {
                    return None;
                },
            };
            Some(
                Mute {
                    id,
                    mute_type,
                    muted_user_id,
                    muted_community_id,
                    created_at,
                    muted_user,
                    muted_community,
                },
            )
        },
        _ => None,
    }
}

/// The elements of `a` describe the mutes `out`, element by element.
pub open spec fn mute_list_matches(a: Seq<JsonValue>, out: Seq<Mute>) -> bool {
    &&& a.len() == out.len()
    &&& forall|i: int| 0 <= i < a.len() ==> mute_matches(a[i], #[trigger] out[i])
}

/// Decodes an array of mutes.
pub fn decode_mute_list(arr: &Vec<JsonValue>) -> (r: Option<Vec<Mute>>)
    ensures
        match r {
            Some(out) => mute_list_matches(arr@, out@),
            None => forall|out: Seq<Mute>| !mute_list_matches(arr@, out),
        },
{
    let mut out: Vec<Mute> = Vec::new();
    let mut i: usize = 0;
    while i < arr.len()
        invariant
            i <= arr@.len(),
            out@.len() == i,
            forall|j: int| 0 <= j < i ==> mute_matches(arr@[j], #[trigger] out@[j]),
        decreases arr@.len() - i,
    {
        match decode_mute(&arr[i]) {
            Some(x) => {
                out.push(x);
            },
            None => {
                proof {
                    assert forall|o: Seq<Mute>| !mute_list_matches(arr@, o) by {
                        if mute_list_matches(arr@, o) {
                            assert(mute_matches(arr@[i as int], o[i as int]));
                        }
                    }
                }
                return None;
            },
        }
        i += 1;
    }
    Some(out)
}

/// `out` is the [`Mutes`] described by the object `v`.
pub open spec fn mutes_matches(v: JsonValue, out: Mutes) -> bool {
    match v {
        JsonValue::Obj(fields) => {
            let f = fields@;
            &&& match slookup(f, "communityMutes"@) {
                None => out.community_mutes is None,
                Some(JsonValue::Null) => out.community_mutes is None,
                Some(JsonValue::Arr(a)) => out.community_mutes is Some && mute_list_matches(
                    a@,
                    out.community_mutes->0@,
                ),
                Some(_) => false,
            }
            &&& match slookup(f, "userMutes"@) {
                None => out.user_mutes is None,
                Some(JsonValue::Null) => out.user_mutes is None,
                Some(JsonValue::Arr(a)) => out.user_mutes is Some && mute_list_matches(
                    a@,
                    out.user_mutes->0@,
                ),
                Some(_) => false,
            }
        },
        _ => false,
    }
}

/// Decodes a [`Mutes`].
pub fn decode_mutes(v: &JsonValue) -> (r: Option<Mutes>)
    ensures
        match r {
            Some(out) => mutes_matches(*v, out),
            None => forall|out: Mutes| !mutes_matches(*v, out),
        },
{
    match v {
        JsonValue::Obj(fields) => {
            let community_mutes = match lookup_field(fields, "communityMutes") {
                None => None,
                Some(w) => match w {
                    JsonValue::Null => None,
                    JsonValue::Arr(a) => match decode_mute_list(a) {
                        Some(xs) => Some(xs),
                        None => {
                            return None;
                        },
                    },
                    _ => {
                        return None;
                    },
                },
            };
            let user_mutes = match lookup_field(fields, "userMutes") {
                None => None,
                Some(w) => match w {
                    JsonValue::Null => None,
                    JsonValue::Arr(a) => match decode_mute_list(a) {
                        Some(xs) => Some(xs),
                        None => {
                            return None;
                        },
                    },
                    _ => {
                        return None;
                    },
                },
            };
            Some(Mutes { community_mutes, user_mutes })
        },
        _ => None,
    }
}

} // verus!
