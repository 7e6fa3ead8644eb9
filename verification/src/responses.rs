//! Response envelopes and their decoders.
//!
//! Several endpoints answer with an untagged union: the body is either the
//! success payload or an error object, with no tag naming the variant.  The
//! decoders here resolve such unions structurally, in a fixed priority
//! order: a variant is accepted only when all of its required members are
//! present and well-typed, and the error variant is considered only when the
//! success variant does not apply.

use crate::feed::{
    comment_matches, decode_comment, decode_post, decode_post_list, post_list_matches,
    post_matches,
};
use crate::json::{
    get_i32, get_opt_str, get_str, lookup_field, opt_str, parse_json, parsed_json, req_i32,
    req_str, slookup, JsonValue,
};
use crate::types::{Comment, Community, Mutes, Post, ReportReason, User};
use crate::users::{
    community_list_matches, decode_community_list, decode_mutes, decode_opt_user, mutes_matches,
    opt_user_matches, user_matches,
};
use crate::decode::{
    decode_report_reason_list, decode_string_list, report_reason_list_matches,
    string_list_matches,
};
use vstd::prelude::*;

verus! {

/// An application error reported by the server, decoded from a response
/// body.  Its defining members are an integer `status` and a string
/// `message`; the machine-readable `code` is optional.
#[derive(Debug, Clone, PartialEq, Eq)]
pub struct APIError {
    /// The HTTP status code the server reported in the body.
    pub status: i32,
    /// The machine-readable error code, if the server sent one.
    pub code: Option<String>,
    /// The human-readable error message.
    pub message: String,
}

/// The body of the handshake endpoint.
#[derive(Debug, PartialEq, Eq)]
pub struct InitialResponse {
    /// The reasons that can be given when reporting a post or comment.
    pub report_reasons: Vec<ReportReason>,
    /// The authenticated user, or nothing when the session is anonymous.
    pub user: Option<User>,
    /// The names of the user's lists, if any were returned.
    pub lists: Option<Vec<String>>,
    /// The communities of the user, or the default communities.
    pub communities: Vec<Community>,
    /// The total number of users on the platform.
    pub no_users: i32,
    /// The communities the user is banned from, if any were returned.
    pub banned_from: Option<Vec<Community>>,
    /// The public VAPID key used for push notifications.
    pub vapid_public_key: String,
    /// The mutes of the user.
    pub mutes: Mutes,
}

/// The body of an endpoint that answers with a user: either the user
/// object or an error object, untagged.
#[derive(Debug, PartialEq, Eq)]
pub enum UserResponse {
    /// The user object.
    User(User),
    /// An application error.
    Error(APIError),
}

/// The body of the posts-listing endpoint.
#[derive(Debug, PartialEq, Eq)]
pub struct PostFeedResponse {
    /// The posts of the page.
    pub posts: Vec<Post>,
    /// The pagination cursor; nothing means the end of pagination.
    pub next: Option<String>,
}

/// A pagination cursor of a feed: a string for most sorts, an integer for
/// the activity sort.
#[derive(Debug, Clone, PartialEq, Eq)]
pub enum Next {
    String(String),
    Int(i32),
}

/// One element of a feed: a post or a comment, untagged.
#[derive(Debug, PartialEq, Eq)]
pub enum FeedItem {
    /// A post.
    Post(Post),
    /// A comment.
    Comment(Comment),
}

/// The body of the feed endpoint: the feed page or an error object,
/// untagged.
#[derive(Debug, PartialEq, Eq)]
pub enum FeedResponse {
    /// A page of the feed with its pagination cursor; a missing cursor
    /// means the end of pagination.
    Feed { feed: Vec<FeedItem>, next: Option<Next> },
    /// An application error.
    Error(APIError),
}

/// A response body that matched none of the shapes the endpoint declares.
/// It carries the raw body and the name of the shape that was attempted.
#[derive(Debug, Clone, PartialEq, Eq)]
pub struct DecodeError {
    /// The raw response body.
    pub body: String,
    /// The name of the shape the body was decoded against.
    pub target: String,
}

/// `out` is the [`APIError`] described by the object `v`.
pub open spec fn api_error_matches(v: JsonValue, out: APIError) -> bool {
    match v {
        JsonValue::Obj(fields) => {
            let f = fields@;
            &&& req_i32(f, "status"@) == Some(out.status)
            &&& opt_str(f, "code"@) == Some(out.code)
            &&& req_str(f, "message"@) == Some(out.message)
        },
        _ => false,
    }
}

/// Decodes an [`APIError`].
pub fn decode_api_error(v: &JsonValue) -> (r: Option<APIError>)
    ensures
        match r {
            Some(out) => api_error_matches(*v, out),
            None => forall|out: APIError| !api_error_matches(*v, out),
        },
{
    match v {
        JsonValue::Obj(fields) => {
            let status = match get_i32(fields, "status") {
                Some(x) => x,
                None => {
                    return None;
                },
            };
            let code = match get_opt_str(fields, "code") {
                Some(x) => x,
                None => {
                    return None;
                },
            };
            let message = match get_str(fields, "message") {
                Some(x) => x,
                None => {
                    return None;
                },
            };
            Some(APIError { status, code, message })
        },
        _ => None,
    }
}

/// `out` is the [`InitialResponse`] described by the object `v`.
pub open spec fn initial_response_matches(v: JsonValue, out: InitialResponse) -> bool {
    match v {
        JsonValue::Obj(fields) => {
            let f = fields@;
            &&& match slookup(f, "reportReasons"@) {
                Some(JsonValue::Arr(a)) => report_reason_list_matches(a@, out.report_reasons@),
                _ => false,
            }
            &&& opt_user_matches(slookup(f, "user"@), out.user)
            &&& match slookup(f, "lists"@) {
                None => out.lists is None,
                Some(JsonValue::Null) => out.lists is None,
                Some(JsonValue::Arr(a)) => out.lists is Some && string_list_matches(
                    a@,
                    out.lists->0@,
                ),
                Some(_) => false,
            }
            &&& match slookup(f, "communities"@) {
                Some(JsonValue::Arr(a)) => community_list_matches(a@, out.communities@),
                _ => false,
            }
            &&& req_i32(f, "noUsers"@) == Some(out.no_users)
            &&& match slookup(f, "bannedFrom"@) {
                None => out.banned_from is None,
                Some(JsonValue::Null) => out.banned_from is None,
                Some(JsonValue::Arr(a)) => out.banned_from is Some && community_list_matches(
                    a@,
                    out.banned_from->0@,
                ),
                Some(_) => false,
            }
            &&& req_str(f, "vapidPublicKey"@) == Some(out.vapid_public_key)
            &&& match slookup(f, "mutes"@) {
                Some(x) => mutes_matches(x, out.mutes),
                None => false,
            }
        },
        _ => false,
    }
}

/// Decodes an [`InitialResponse`].
pub fn decode_initial_response(v: &JsonValue) -> (r: Option<InitialResponse>)
    ensures
        match r {
            Some(out) => initial_response_matches(*v, out),
            None => forall|out: InitialResponse| !initial_response_matches(*v, out),
        },
{
    match v {
        JsonValue::Obj(fields) => {
            let report_reasons = match lookup_field(fields, "reportReasons") {
                Some(w) => match w {
                    JsonValue::Arr(a) => match decode_report_reason_list(a) {
                        Some(xs) => xs,
                        None => {
                            return None;
                        },
                    },
                    _ => {
                        return None;
                    },
                },
                None => {
                    return None;
                },
            };
            let user = match decode_opt_user(fields, "user") {
                Some(x) => x,
                None => {
                    return None;
                },
            };
            let lists = match lookup_field(fields, "lists") {
                None => None,
                Some(w) => match w {
                    JsonValue::Null => None,
                    JsonValue::Arr(a) => match decode_string_list(a) {
                        Some(xs) => Some(xs),
                        None => {
                            return None;
                        },
                    },
                    _ => {
                        return None;
                    },
                },
            };
            let communities = match lookup_field(fields, "communities") {
                Some(w) => match w {
                    JsonValue::Arr(a) => match decode_community_list(a) {
                        Some(xs) => xs,
                        None => {
                            return None;
                        },
                    },
                    _ => {
                        return None;
                    },
                },
                None => {
                    return None;
                },
            };
            let no_users = match get_i32(fields, "noUsers") {
                Some(x) => x,
                None => {
                    return None;
                },
            };
            let banned_from = match lookup_field(fields, "bannedFrom") {
                None => None,
                Some(w) => match w {
                    JsonValue::Null => None,
                    JsonValue::Arr(a) => match decode_community_list(a) {
                        Some(xs) => Some(xs),
                        None => {
                            return None;
                        },
                    },
                    _ => {
                        return None;
                    },
                },
            };
            let vapid_public_key = match get_str(fields, "vapidPublicKey") {
                Some(x) => x,
                None => {
                    return None;
                },
            };
            let mutes = match lookup_field(fields, "mutes") {
                Some(w) => match decode_mutes(w) {
                    Some(x) => x,
                    None => {
                        return None;
                    },
                },
                None => {
                    return None;
                },
            };
            Some(
                InitialResponse {
                    report_reasons,
                    user,
                    lists,
                    communities,
                    no_users,
                    banned_from,
                    vapid_public_key,
                    mutes,
                },
            )
        },
        _ => None,
    }
}

/// `out` is the [`UserResponse`] that `v` resolves to.  The user shape has
/// priority: the error shape is accepted only when `v` does not describe a
/// user.
pub open spec fn user_response_matches(v: JsonValue, out: UserResponse) -> bool {
    match out {
        UserResponse::User(u) => user_matches(v, u),
        UserResponse::Error(e) => {
            &&& api_error_matches(v, e)
            &&& forall|u: User| !user_matches(v, u)
        },
    }
}

/// Resolves the user-or-error union.
pub fn decode_user_response(v: &JsonValue) -> (r: Option<UserResponse>)
    ensures
        match r {
            Some(out) => user_response_matches(*v, out),
            None => forall|out: UserResponse| !user_response_matches(*v, out),
        },
{
    match crate::users::decode_user(v) {
        Some(u) => Some(UserResponse::User(u)),
        None => match decode_api_error(v) {
            Some(e) => Some(UserResponse::Error(e)),
            None => None,
        },
    }
}

/// The cursor member value `w` describes the cursor `out`: a missing member
/// and `null` mean the end of pagination, a string gives the string
/// cursor, and an integer gives the integer cursor.
pub open spec fn next_matches(w: Option<JsonValue>, out: Option<Next>) -> bool {
    match w {
        None => out is None,
        Some(JsonValue::Null) => out is None,
        Some(JsonValue::Str(s)) => out == Some(Next::String(s)),
        Some(JsonValue::Int(i)) => i32::MIN <= i <= i32::MAX && out == Some(Next::Int(i as i32)),
        Some(_) => false,
    }
}

/// Decodes the pagination cursor member of a feed object.
pub fn decode_next(fields: &Vec<(String, JsonValue)>, key: &str) -> (r: Option<Option<Next>>)
    ensures
        match r {
            Some(out) => next_matches(slookup(fields@, key@), out),
            None => forall|out: Option<Next>| !next_matches(slookup(fields@, key@), out),
        },
{
    match lookup_field(fields, key) {
        None => Some(None),
        Some(w) => match w {
            JsonValue::Null => Some(None),
            JsonValue::Str(s) => Some(Some(Next::String(s.clone()))),
            JsonValue::Int(i) => {
                let i = *i;
                if i32::MIN as i64 <= i && i <= i32::MAX as i64 {
                    Some(Some(Next::Int(i as i32)))
                } else {
                    None
                }
            },
            _ => None,
        },
    }
}

/// `out` is the [`FeedItem`] that `v` resolves to.  The post shape has
/// priority: the comment shape is accepted only when `v` does not describe
/// a post.
pub open spec fn feed_item_matches(v: JsonValue, out: FeedItem) -> bool {
    match out {
        FeedItem::Post(p) => post_matches(v, p),
        FeedItem::Comment(c) => {
            &&& comment_matches(v, c)
            &&& forall|p: Post| !post_matches(v, p)
        },
    }
}

/// Resolves the post-or-comment union for one feed element.
pub fn decode_feed_item(v: &JsonValue) -> (r: Option<FeedItem>)
    ensures
        match r {
            Some(out) => feed_item_matches(*v, out),
            None => forall|out: FeedItem| !feed_item_matches(*v, out),
        },
{
    match decode_post(v) {
        Some(p) => Some(FeedItem::Post(p)),
        None => match decode_comment(v) {
            Some(c) => Some(FeedItem::Comment(c)),
            None => None,
        },
    }
}

/// The elements of `a` resolve to the feed items `out`, element by element.
pub open spec fn feed_item_list_matches(a: Seq<JsonValue>, out: Seq<FeedItem>) -> bool {
    &&& a.len() == out.len()
    &&& forall|i: int| 0 <= i < a.len() ==> feed_item_matches(a[i], #[trigger] out[i])
}

/// Decodes an array of feed elements.
pub fn decode_feed_item_list(arr: &Vec<JsonValue>) -> (r: Option<Vec<FeedItem>>)
    ensures
        match r {
            Some(out) => feed_item_list_matches(arr@, out@),
            None => forall|out: Seq<FeedItem>| !feed_item_list_matches(arr@, out),
        },
{
    let mut out: Vec<FeedItem> = Vec::new();
    let mut i: usize = 0;
    while i < arr.len()
        invariant
            i <= arr@.len(),
            out@.len() == i,
            forall|j: int| 0 <= j < i ==> feed_item_matches(arr@[j], #[trigger] out@[j]),
        decreases arr@.len() - i,
    {
        match decode_feed_item(&arr[i]) {
            Some(x) => {
                out.push(x);
            },
            None => {
                proof {
                    assert forall|o: Seq<FeedItem>| !feed_item_list_matches(arr@, o) by {
                        if feed_item_list_matches(arr@, o) {
                            assert(feed_item_matches(arr@[i as int], o[i as int]));
                        }
                    }
                }
                return None;
            },
        }
        i += 1;
    }
    Some(out)
}

/// `v` is a feed page whose elements resolve to `feed` and whose cursor
/// member describes `next`.
pub open spec fn feed_page_matches(v: JsonValue, feed: Seq<FeedItem>, next: Option<Next>) -> bool {
    match v {
        JsonValue::Obj(fields) => {
            let f = fields@;
            &&& match slookup(f, "feed"@) {
                Some(JsonValue::Arr(a)) => feed_item_list_matches(a@, feed),
                _ => false,
            }
            &&& next_matches(slookup(f, "next"@), next)
        },
        _ => false,
    }
}

/// `out` is the [`FeedResponse`] that `v` resolves to.  The feed page has
/// priority: the error shape is accepted only when `v` does not describe a
/// feed page.
pub open spec fn feed_response_matches(v: JsonValue, out: FeedResponse) -> bool {
    match out {
        FeedResponse::Feed { feed, next } => feed_page_matches(v, feed@, next),
        FeedResponse::Error(e) => {
            &&& api_error_matches(v, e)
            &&& forall|feed: Seq<FeedItem>, next: Option<Next>| !feed_page_matches(v, feed, next)
        },
    }
}

/// Resolves the feed-or-error union.
pub fn decode_feed_response(v: &JsonValue) -> (r: Option<FeedResponse>)
    ensures
        match r {
            Some(out) => feed_response_matches(*v, out),
            None => forall|out: FeedResponse| !feed_response_matches(*v, out),
        },
{
    match decode_feed_page(v) {
        Some((feed, next)) => Some(FeedResponse::Feed { feed, next }),
        None => match decode_api_error(v) {
            Some(e) => Some(FeedResponse::Error(e)),
            None => None,
        },
    }
}

/// Decodes a feed page: the element array and the pagination cursor.
pub fn decode_feed_page(v: &JsonValue) -> (r: Option<(Vec<FeedItem>, Option<Next>)>)
    ensures
        match r {
            Some(out) => feed_page_matches(*v, out.0@, out.1),
            None => forall|feed: Seq<FeedItem>, next: Option<Next>|
                !feed_page_matches(*v, feed, next),
        },
{
    match v {
        JsonValue::Obj(fields) => {
            let feed = match lookup_field(fields, "feed") {
                Some(w) => match w {
                    JsonValue::Arr(a) => match decode_feed_item_list(a) {
                        Some(xs) => xs,
                        None => {
                            return None;
                        },
                    },
                    _ => {
                        return None;
                    },
                },
                None => {
                    return None;
                },
            };
            let next = match decode_next(fields, "next") {
                Some(x) => x,
                None => {
                    return None;
                },
            };
            Some((feed, next))
        },
        _ => None,
    }
}

/// `out` is the [`PostFeedResponse`] described by the object `v`.
pub open spec fn post_feed_response_matches(v: JsonValue, out: PostFeedResponse) -> bool {
    match v {
        JsonValue::Obj(fields) => {
            let f = fields@;
            &&& match slookup(f, "posts"@) {
                Some(JsonValue::Arr(a)) => post_list_matches(a@, out.posts@),
                _ => false,
            }
            &&& opt_str(f, "next"@) == Some(out.next)
        },
        _ => false,
    }
}

/// Decodes a [`PostFeedResponse`].
pub fn decode_post_feed_response(v: &JsonValue) -> (r: Option<PostFeedResponse>)
    ensures
        match r {
            Some(out) => post_feed_response_matches(*v, out),
            None => forall|out: PostFeedResponse| !post_feed_response_matches(*v, out),
        },
{
    match v {
        JsonValue::Obj(fields) => {
            let posts = match lookup_field(fields, "posts") {
                Some(w) => match w {
                    JsonValue::Arr(a) => match decode_post_list(a) {
                        Some(xs) => xs,
                        None => {
                            return None;
                        },
                    },
                    _ => {
                        return None;
                    },
                },
                None => {
                    return None;
                },
            };
            let next = match get_opt_str(fields, "next") {
                Some(x) => x,
                None => {
                    return None;
                },
            };
            Some(PostFeedResponse { posts, next })
        },
        _ => None,
    }
}

/// Parses and decodes the body of the handshake endpoint.
pub fn decode_initial_response_body(body: &str) -> (r: Result<InitialResponse, DecodeError>)
    ensures
        match r {
            Ok(out) => parsed_json(body@) is Some && initial_response_matches(
                parsed_json(body@)->0,
                out,
            ),
            Err(e) => {
                &&& e.body@ == body@
                &&& e.target@ == "InitialResponse"@
                &&& parsed_json(body@) is None || forall|out: InitialResponse|
                    !initial_response_matches(parsed_json(body@)->0, out)
            },
        },
{
    match parse_json(body) {
        Some(v) => match decode_initial_response(&v) {
            Some(out) => Ok(out),
            None => Err(
                DecodeError {
                    body: body.to_owned(),
                    target: String::from_str("InitialResponse"),
                },
            ),
        },
        None => Err(
            DecodeError { body: body.to_owned(), target: String::from_str("InitialResponse") },
        ),
    }
}

/// Parses and decodes the body of an endpoint that answers with a user or
/// an error, untagged.
pub fn decode_user_response_body(body: &str) -> (r: Result<UserResponse, DecodeError>)
    ensures
        match r {
            Ok(out) => parsed_json(body@) is Some && user_response_matches(
                parsed_json(body@)->0,
                out,
            ),
            Err(e) => {
                &&& e.body@ == body@
                &&& e.target@ == "UserResponse"@
                &&& parsed_json(body@) is None || forall|out: UserResponse|
                    !user_response_matches(parsed_json(body@)->0, out)
            },
        },
{
    match parse_json(body) {
        Some(v) => match decode_user_response(&v) {
            Some(out) => Ok(out),
            None => Err(
                DecodeError { body: body.to_owned(), target: String::from_str("UserResponse") },
            ),
        },
        None => Err(
            DecodeError { body: body.to_owned(), target: String::from_str("UserResponse") },
        ),
    }
}

/// Parses and decodes the body of the current-user endpoint, which answers
/// with a bare user object.
pub fn decode_user_body(body: &str) -> (r: Result<User, DecodeError>)
    ensures
        match r {
            Ok(out) => parsed_json(body@) is Some && user_matches(parsed_json(body@)->0, out),
            Err(e) => {
                &&& e.body@ == body@
                &&& e.target@ == "User"@
                &&& parsed_json(body@) is None || forall|out: User|
                    !user_matches(parsed_json(body@)->0, out)
            },
        },
{
    match parse_json(body) {
        Some(v) => match crate::users::decode_user(&v) {
            Some(out) => Ok(out),
            None => Err(DecodeError { body: body.to_owned(), target: String::from_str("User") }),
        },
        None => Err(DecodeError { body: body.to_owned(), target: String::from_str("User") }),
    }
}

/// Parses and decodes the body of the feed endpoint.
pub fn decode_feed_response_body(body: &str) -> (r: Result<FeedResponse, DecodeError>)
    ensures
        match r {
            Ok(out) => parsed_json(body@) is Some && feed_response_matches(
                parsed_json(body@)->0,
                out,
            ),
            Err(e) => {
                &&& e.body@ == body@
                &&& e.target@ == "FeedResponse"@
                &&& parsed_json(body@) is None || forall|out: FeedResponse|
                    !feed_response_matches(parsed_json(body@)->0, out)
            },
        },
{
    match parse_json(body) {
        Some(v) => match decode_feed_response(&v) {
            Some(out) => Ok(out),
            None => Err(
                DecodeError { body: body.to_owned(), target: String::from_str("FeedResponse") },
            ),
        },
        None => Err(
            DecodeError { body: body.to_owned(), target: String::from_str("FeedResponse") },
        ),
    }
}

/// Parses and decodes the body of the posts-listing endpoint.
pub fn decode_post_feed_response_body(body: &str) -> (r: Result<PostFeedResponse, DecodeError>)
    ensures
        match r {
            Ok(out) => parsed_json(body@) is Some && post_feed_response_matches(
                parsed_json(body@)->0,
                out,
            ),
            Err(e) => {
                &&& e.body@ == body@
                &&& e.target@ == "PostFeedResponse"@
                &&& parsed_json(body@) is None || forall|out: PostFeedResponse|
                    !post_feed_response_matches(parsed_json(body@)->0, out)
            },
        },
{
    match parse_json(body) {
        Some(v) => match decode_post_feed_response(&v) {
            Some(out) => Ok(out),
            None => Err(
                DecodeError {
                    body: body.to_owned(),
                    target: String::from_str("PostFeedResponse"),
                },
            ),
        },
        None => Err(
            DecodeError { body: body.to_owned(), target: String::from_str("PostFeedResponse") },
        ),
    }
}

} // verus!
