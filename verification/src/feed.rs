//! Structural decoders for posts and comments.

use crate::decode::{
    decode_image, decode_link, decode_opt_image, decode_string_list, image_matches, link_matches,
    opt_image_matches, string_list_matches,
};
use crate::json::{
    get_bool, get_i32, get_opt_bool, get_opt_str, get_str, lookup_field, opt_bool, opt_str,
    req_bool, req_i32, req_str, slookup, JsonValue,
};
use crate::types::{Comment, Post};
use crate::users::{community_matches, decode_community, decode_user, user_matches};
use vstd::prelude::*;

verus! {

/// `out` is the [`Comment`] described by the object `v`.
pub open spec fn comment_matches(v: JsonValue, out: Comment) -> bool {
    match v {
        JsonValue::Obj(fields) => {
            let f = fields@;
            &&& req_str(f, "id"@) == Some(out.id)
            &&& req_str(f, "postId"@) == Some(out.post_id)
            &&& req_str(f, "postPublicId"@) == Some(out.post_public_id)
            &&& req_str(f, "communityId"@) == Some(out.community_id)
            &&& req_str(f, "communityName"@) == Some(out.community_name)
            &&& opt_str(f, "userId"@) == Some(out.user_id)
            &&& req_str(f, "username"@) == Some(out.username)
            &&& opt_str(f, "userGhostId"@) == Some(out.user_ghost_id)
            &&& req_str(f, "userGroup"@) == Some(out.user_group)
            &&& req_bool(f, "userDeleted"@) == Some(out.user_deleted)
            &&& opt_str(f, "parentId"@) == Some(out.parent_id)
            &&& req_i32(f, "depth"@) == Some(out.depth)
            &&& req_i32(f, "noReplies"@) == Some(out.no_replies)
            &&& req_i32(f, "noDirectReplies"@) == Some(out.no_direct_replies)
            &&& match slookup(f, "ancestors"@) {
                None => out.ancestors is None,
                Some(JsonValue::Null) => out.ancestors is None,
                Some(JsonValue::Arr(a)) => out.ancestors is Some && string_list_matches(
                    a@,
                    out.ancestors->0@,
                ),
                Some(_) => false,
            }
            &&& req_str(f, "body"@) == Some(out.body)
            &&& req_i32(f, "upvotes"@) == Some(out.upvotes)
            &&& req_i32(f, "downvotes"@) == Some(out.downvotes)
            &&& req_str(f, "createdAt"@) == Some(out.created_at)
            &&& opt_str(f, "editedAt"@) == Some(out.edited_at)
            &&& opt_bool(f, "contentStripped"@) == Some(out.content_stripped)
            &&& req_bool(f, "deleted"@) == Some(out.deleted)
            &&& opt_str(f, "deletedAt"@) == Some(out.deleted_at)
            &&& opt_str(f, "deletedAs"@) == Some(out.deleted_as)
            &&& match slookup(f, "author"@) {
                Some(x) => user_matches(x, out.author),
                None => false,
            }
            &&& opt_bool(f, "isAuthorMuted"@) == Some(out.is_author_muted)
            &&& opt_bool(f, "userVoted"@) == Some(out.user_voted)
            &&& opt_bool(f, "userVotedUp"@) == Some(out.user_voted_up)
            &&& opt_str(f, "postTitle"@) == Some(out.post_title)
            &&& req_bool(f, "postDeleted"@) == Some(out.post_deleted)
            &&& opt_str(f, "postDeletedAs"@) == Some(out.post_deleted_as)
        },
        _ => false,
    }
}

/// Decodes a [`Comment`].
pub fn decode_comment(v: &JsonValue) -> (r: Option<Comment>)
    ensures
        match r {
            Some(out) => comment_matches(*v, out),
            None => forall|out: Comment| !comment_matches(*v, out),
        },
{
    match v {
        JsonValue::Obj(fields) => {
            let id = match get_str(fields, "id") {
                Some(x) => x,
                None => {
                    return None;
                },
            };
            let post_id = match get_str(fields, "postId") {
                Some(x) => x,
                None => {
                    return None;
                },
            };
            let post_public_id = match get_str(fields, "postPublicId") {
                Some(x) => x,
                None => {
                    return None;
                },
            };
            let community_id = match get_str(fields, "communityId") {
                Some(x) => x,
                None => {
                    return None;
                },
            };
            let community_name = match get_str(fields, "communityName") {
                Some(x) => x,
                None => {
                    return None;
                },
            };
            let user_id = match get_opt_str(fields, "userId") {
                Some(x) => x,
                None => {
                    return None;
                },
            };
            let username = match get_str(fields, "username") {
                Some(x) => x,
                None => {
                    return None;
                },
            };
            let user_ghost_id = match get_opt_str(fields, "userGhostId") {
                Some(x) => x,
                None => {
                    return None;
                },
            };
            let user_group = match get_str(fields, "userGroup") {
                Some(x) => x,
                None => {
                    return None;
                },
            };
            let user_deleted = match get_bool(fields, "userDeleted") {
                Some(x) => x,
                None => {
                    return None;
                },
            };
            let parent_id = match get_opt_str(fields, "parentId") {
                Some(x) => x,
                None => {
                    return None;
                },
            };
            let depth = match get_i32(fields, "depth") {
                Some(x) => x,
                None => {
                    return None;
                },
            };
            let no_replies = match get_i32(fields, "noReplies") {
                Some(x) => x,
                None => {
                    return None;
                },
            };
            let no_direct_replies = match get_i32(fields, "noDirectReplies") {
                Some(x) => x,
                None => {
                    return None;
                },
            };
            let ancestors = match lookup_field(fields, "ancestors") {
                None => None,
                Some(w) => match w {
                    JsonValue::Null => None,
                    JsonValue::Arr(a) => match decode_string_list(a) {
                        Some(xs) => Some(xs),
                        None => {
                            return None;
                        },
                    },
                    _ => {
                        return None;
                    },
                },
            };
            let body = match get_str(fields, "body") {
                Some(x) => x,
                None => {
                    return None;
                },
            };
            let upvotes = match get_i32(fields, "upvotes") {
                Some(x) => x,
                None => {
                    return None;
                },
            };
            let downvotes = match get_i32(fields, "downvotes") {
                Some(x) => x,
                None => {
                    return None;
                },
            };
            let created_at = match get_str(fields, "createdAt") {
                Some(x) => x,
                None => {
                    return None;
                },
            };
            let edited_at = match get_opt_str(fields, "editedAt") {
                Some(x) => x,
                None => {
                    return None;
                },
            };
            let content_stripped = match get_opt_bool(fields, "contentStripped") {
                Some(x) => x,
                None => {
                    return None;
                },
            };
            let deleted = match get_bool(fields, "deleted") {
                Some(x) => x,
                None => {
                    return None;
                },
            };
            let deleted_at = match get_opt_str(fields, "deletedAt") {
                Some(x) => x,
                None => {
                    return None;
                },
            };
            let deleted_as = match get_opt_str(fields, "deletedAs") {
                Some(x) => x,
                None => {
                    return None;
                },
            };
            let author = match lookup_field(fields, "author") {
                Some(w) => match decode_user(w) {
                    Some(u) => u,
                    None => {
                        return None;
                    },
                },
                None => {
                    return None;
                },
            };
            let is_author_muted = match get_opt_bool(fields, "isAuthorMuted") {
                Some(x) => x,
                None => {
                    return None;
                },
            };
            let user_voted = match get_opt_bool(fields, "userVoted") {
                Some(x) => x,
                None => {
                    return None;
                },
            };
            let user_voted_up = match get_opt_bool(fields, "userVotedUp") {
                Some(x) => x,
                None => {
                    return None;
                },
            };
            let post_title = match get_opt_str(fields, "postTitle") {
                Some(x) => x,
                None => {
                    return None;
                },
            };
            let post_deleted = match get_bool(fields, "postDeleted") {
                Some(x) => x,
                None => {
                    return None;
                },
            };
            let post_deleted_as = match get_opt_str(fields, "postDeletedAs") {
                Some(x) => x,
                None => {
                    return None;
                },
            };
            Some(
                Comment {
                    id,
                    post_id,
                    post_public_id,
                    community_id,
                    community_name,
                    user_id,
                    username,
                    user_ghost_id,
                    user_group,
                    user_deleted,
                    parent_id,
                    depth,
                    no_replies,
                    no_direct_replies,
                    ancestors,
                    body,
                    upvotes,
                    downvotes,
                    created_at,
                    edited_at,
                    content_stripped,
                    deleted,
                    deleted_at,
                    deleted_as,
                    author,
                    is_author_muted,
                    user_voted,
                    user_voted_up,
                    post_title,
                    post_deleted,
                    post_deleted_as,
                },
            )
        },
        _ => None,
    }
}

/// The elements of `a` describe the comments `out`, element by element.
pub open spec fn comment_list_matches(a: Seq<JsonValue>, out: Seq<Comment>) -> bool {
    &&& a.len() == out.len()
    &&& forall|i: int| 0 <= i < a.len() ==> comment_matches(a[i], #[trigger] out[i])
}

/// Decodes an array of comments.
pub fn decode_comment_list(arr: &Vec<JsonValue>) -> (r: Option<Vec<Comment>>)
    ensures
        match r {
            Some(out) => comment_list_matches(arr@, out@),
            None => forall|out: Seq<Comment>| !comment_list_matches(arr@, out),
        },
{
    let mut out: Vec<Comment> = Vec::new();
    let mut i: usize = 0;
    while i < arr.len()
        invariant
            i <= arr@.len(),
            out@.len() == i,
            forall|j: int| 0 <= j < i ==> comment_matches(arr@[j], #[trigger] out@[j]),
        decreases arr@.len() - i,
    {
        match decode_comment(&arr[i]) {
            Some(x) => {
                out.push(x);
            },
            None => {
                proof {
                    assert forall|o: Seq<Comment>| !comment_list_matches(arr@, o) by {
                        if comment_list_matches(arr@, o) {
                            assert(comment_matches(arr@[i as int], o[i as int]));
                        }
                    }
                }
                return None;
            },
        }
        i += 1;
    }
    Some(out)
}

/// `out` is the [`Post`] described by the object `v`.
pub open spec fn post_matches(v: JsonValue, out: Post) -> bool {
    match v {
        JsonValue::Obj(fields) => {
            let f = fields@;
            &&& req_str(f, "id"@) == Some(out.id)
            &&& req_str(f, "type"@) == Some(out.post_type)
            &&& req_str(f, "publicId"@) == Some(out.public_id)
            &&& req_str(f, "userId"@) == Some(out.user_id)
            &&& req_str(f, "username"@) == Some(out.username)
            &&& opt_str(f, "userGhostId"@) == Some(out.user_ghost_id)
            &&& req_str(f, "userGroup"@) == Some(out.user_group)
            &&& req_bool(f, "userDeleted"@) == Some(out.user_deleted)
            &&& req_bool(f, "isPinned"@) == Some(out.is_pinned)
            &&& req_bool(f, "isPinnedSite"@) == Some(out.is_pinned_site)
            &&& req_str(f, "communityId"@) == Some(out.community_id)
            &&& req_str(f, "communityName"@) == Some(out.community_name)
            &&& match slookup(f, "communityProPic"@) {
                Some(x) => image_matches(x, out.community_pro_pic),
                None => false,
            }
            &&& match slookup(f, "communityBannerImage"@) {
                Some(x) => image_matches(x, out.community_banner_image),
                None => false,
            }
            &&& req_str(f, "title"@) == Some(out.title)
            &&& opt_str(f, "body"@) == Some(out.body)
            &&& opt_image_matches(slookup(f, "image"@), out.image)
            &&& match slookup(f, "link"@) {
                None => out.link is None,
                Some(JsonValue::Null) => out.link is None,
                Some(x) => out.link is Some && link_matches(x, out.link->0),
            }
            &&& req_bool(f, "locked"@) == Some(out.locked)
            &&& opt_str(f, "lockedBy"@) == Some(out.locked_by)
            &&& opt_str(f, "lockedByGroup"@) == Some(out.locked_by_group)
            &&& opt_str(f, "lockedAt"@) == Some(out.locked_at)
            &&& req_i32(f, "upvotes"@) == Some(out.upvotes)
            &&& req_i32(f, "downvotes"@) == Some(out.downvotes)
            &&& req_i32(f, "hotness"@) == Some(out.hotness)
            &&& req_str(f, "created_at"@) == Some(out.created_at)
            &&& opt_str(f, "editedAt"@) == Some(out.edited_at)
            &&& req_str(f, "lastActivityAt"@) == Some(out.last_activity_at)
            &&& req_bool(f, "deleted"@) == Some(out.deleted)
            &&& opt_str(f, "deletedAt"@) == Some(out.deleted_at)
            &&& opt_str(f, "deletedBy"@) == Some(out.deleted_by)
            &&& opt_str(f, "deletedAs"@) == Some(out.deleted_as)
            &&& req_bool(f, "deletedContent"@) == Some(out.deleted_content)
            &&& opt_str(f, "deletedContentAs"@) == Some(out.deleted_content_as)
            &&& req_i32(f, "noComments"@) == Some(out.no_comments)
            &&& match slookup(f, "comments"@) {
                None => out.comments is None,
                Some(JsonValue::Null) => out.comments is None,
                Some(JsonValue::Arr(a)) => out.comments is Some && comment_list_matches(
                    a@,
                    out.comments->0@,
                ),
                Some(_) => false,
            }
            &&& opt_str(f, "commentsNext"@) == Some(out.comments_next)
            &&& opt_bool(f, "userVoted"@) == Some(out.user_voted)
            &&& opt_bool(f, "userUpvoted"@) == Some(out.user_upvoted)
            &&& req_bool(f, "isAuthorMuted"@) == Some(out.is_author_muted)
            &&& req_bool(f, "isCommunityMuted"@) == Some(out.is_community_muted)
            &&& match slookup(f, "community"@) {
                Some(x) => community_matches(x, out.community),
                None => false,
            }
            &&& crate::users::opt_user_matches(slookup(f, "user"@), out.user)
        },
        _ => false,
    }
}

/// Decodes a [`Post`].
pub fn decode_post(v: &JsonValue) -> (r: Option<Post>)
    ensures
        match r {
            Some(out) => post_matches(*v, out),
            None => forall|out: Post| !post_matches(*v, out),
        },
{
    match v {
        JsonValue::Obj(fields) => {
            let id = match get_str(fields, "id") {
                Some(x) => x,
                None => {
                    return None;
                },
            };
            let post_type = match get_str(fields, "type") {
                Some(x) => x,
                None => {
                    return None;
                },
            };
            let public_id = match get_str(fields, "publicId") {
                Some(x) => x,
                None => {
                    return None;
                },
            };
            let user_id = match get_str(fields, "userId") {
                Some(x) => x,
                None => {
                    return None;
                },
            };
            let username = match get_str(fields, "username") {
                Some(x) => x,
                None => {
                    return None;
                },
            };
            let user_ghost_id = match get_opt_str(fields, "userGhostId") {
                Some(x) => x,
                None => {
                    return None;
                },
            };
            let user_group = match get_str(fields, "userGroup") {
                Some(x) => x,
                None => {
                    return None;
                },
            };
            let user_deleted = match get_bool(fields, "userDeleted") {
                Some(x) => x,
                None => {
                    return None;
                },
            };
            let is_pinned = match get_bool(fields, "isPinned") {
                Some(x) => x,
                None => {
                    return None;
                },
            };
            let is_pinned_site = match get_bool(fields, "isPinnedSite") {
                Some(x) => x,
                None => {
                    return None;
                },
            };
            let community_id = match get_str(fields, "communityId") {
                Some(x) => x,
                None => {
                    return None;
                },
            };
            let community_name = match get_str(fields, "communityName") {
                Some(x) => x,
                None => {
                    return None;
                },
            };
            let community_pro_pic = match lookup_field(fields, "communityProPic") {
                Some(w) => match decode_image(w) {
                    Some(x) => x,
                    None => {
                        return None;
                    },
                },
                None => {
                    return None;
                },
            };
            let community_banner_image = match lookup_field(fields, "communityBannerImage") {
                Some(w) => match decode_image(w) {
                    Some(x) => x,
                    None => {
                        return None;
                    },
                },
                None => {
                    return None;
                },
            };
            let title = match get_str(fields, "title") {
                Some(x) => x,
                None => {
                    return None;
                },
            };
            let body = match get_opt_str(fields, "body") {
                Some(x) => x,
                None => {
                    return None;
                },
            };
            let image = match decode_opt_image(fields, "image") {
                Some(x) => x,
                None => {
                    return None;
                },
            };
            let link = match lookup_field(fields, "link") {
                None => None,
                Some(w) => match w {
                    JsonValue::Null => None,
                    _ => match decode_link(w) {
                        Some(x) => Some(x),
                        None => {
                            return None;
                        },
                    },
                },
            };
            let locked = match get_bool(fields, "locked") {
                Some(x) => x,
                None => {
                    return None;
                },
            };
            let locked_by = match get_opt_str(fields, "lockedBy") {
                Some(x) => x,
                None => {
                    return None;
                },
            };
            let locked_by_group = match get_opt_str(fields, "lockedByGroup") {
                Some(x) => x,
                None => {
                    return None;
                },
            };
            let locked_at = match get_opt_str(fields, "lockedAt") {
                Some(x) => x,
                None => {
                    return None;
                },
            };
            let upvotes = match get_i32(fields, "upvotes") {
                Some(x) => x,
                None => {
                    return None;
                },
            };
            let downvotes = match get_i32(fields, "downvotes") {
                Some(x) => x,
                None => {
                    return None;
                },
            };
            let hotness = match get_i32(fields, "hotness") {
                Some(x) => x,
                None => {
                    return None;
                },
            };
            let created_at = match get_str(fields, "created_at") {
                Some(x) => x,
                None => {
                    return None;
                },
            };
            let edited_at = match get_opt_str(fields, "editedAt") {
                Some(x) => x,
                None => {
                    return None;
                },
            };
            let last_activity_at = match get_str(fields, "lastActivityAt") {
                Some(x) => x,
                None => {
                    return None;
                },
            };
            let deleted = match get_bool(fields, "deleted") {
                Some(x) => x,
                None => {
                    return None;
                },
            };
            let deleted_at = match get_opt_str(fields, "deletedAt") {
                Some(x) => x,
                None => {
                    return None;
                },
            };
            let deleted_by = match get_opt_str(fields, "deletedBy") {
                Some(x) => x,
                None => {
                    return None;
                },
            };
            let deleted_as = match get_opt_str(fields, "deletedAs") {
                Some(x) => x,
                None => {
                    return None;
                },
            };
            let deleted_content = match get_bool(fields, "deletedContent") {
                Some(x) => x,
                None => {
                    return None;
                },
            };
            let deleted_content_as = match get_opt_str(fields, "deletedContentAs") {
                Some(x) => x,
                None => {
                    return None;
                },
            };
            let no_comments = match get_i32(fields, "noComments") {
                Some(x) => x,
                None => {
                    return None;
                },
            };
            let comments = match lookup_field(fields, "comments") {
                None => None,
                Some(w) => match w {
                    JsonValue::Null => None,
                    JsonValue::Arr(a) => match decode_comment_list(a) {
                        Some(xs) => Some(xs),
                        None => {
                            return None;
                        },
                    },
                    _ => {
                        return None;
                    },
                },
            };
            let comments_next = match get_opt_str(fields, "commentsNext") {
                Some(x) => x,
                None => {
                    return None;
                },
            };
            let user_voted = match get_opt_bool(fields, "userVoted") {
                Some(x) => x,
                None => {
                    return None;
                },
            };
            let user_upvoted = match get_opt_bool(fields, "userUpvoted") {
                Some(x) => x,
                None => {
                    return None;
                },
            };
            let is_author_muted = match get_bool(fields, "isAuthorMuted") {
                Some(x) => x,
                None => {
                    return None;
                },
            };
            let is_community_muted = match get_bool(fields, "isCommunityMuted") {
                Some(x) => x,
                None => {
                    return None;
                },
            };
            let community = match lookup_field(fields, "community") {
                Some(w) => match decode_community(w) {
                    Some(x) => x,
                    None => {
                        return None;
                    },
                },
                None => {
                    return None;
                },
            };
            let user = match crate::users::decode_opt_user(fields, "user") {
                Some(x) => x,
                None => {
                    return None;
                },
            };
            Some(
                Post {
                    id,
                    post_type,
                    public_id,
                    user_id,
                    username,
                    user_ghost_id,
                    user_group,
                    user_deleted,
                    is_pinned,
                    is_pinned_site,
                    community_id,
                    community_name,
                    community_pro_pic,
                    community_banner_image,
                    title,
                    body,
                    image,
                    link,
                    locked,
                    locked_by,
                    locked_by_group,
                    locked_at,
                    upvotes,
                    downvotes,
                    hotness,
                    created_at,
                    edited_at,
                    last_activity_at,
                    deleted,
                    deleted_at,
                    deleted_by,
                    deleted_as,
                    deleted_content,
                    deleted_content_as,
                    no_comments,
                    comments,
                    comments_next,
                    user_voted,
                    user_upvoted,
                    is_author_muted,
                    is_community_muted,
                    community,
                    user,
                },
            )
        },
        _ => None,
    }
}

/// The elements of `a` describe the posts `out`, element by element.
pub open spec fn post_list_matches(a: Seq<JsonValue>, out: Seq<Post>) -> bool {
    &&& a.len() == out.len()
    &&& forall|i: int| 0 <= i < a.len() ==> post_matches(a[i], #[trigger] out[i])
}

/// Decodes an array of posts.
pub fn decode_post_list(arr: &Vec<JsonValue>) -> (r: Option<Vec<Post>>)
    ensures
        match r {
            Some(out) => post_list_matches(arr@, out@),
            None => forall|out: Seq<Post>| !post_list_matches(arr@, out),
        },
{
    let mut out: Vec<Post> = Vec::new();
    let mut i: usize = 0;
    while i < arr.len()
        invariant
            i <= arr@.len(),
            out@.len() == i,
            forall|j: int| 0 <= j < i ==> post_matches(arr@[j], #[trigger] out@[j]),
        decreases arr@.len() - i,
    {
        match decode_post(&arr[i]) {
            Some(x) => {
                out.push(x);
            },
            None => {
                proof {
                    assert forall|o: Seq<Post>| !post_list_matches(arr@, o) by {
                        if post_list_matches(arr@, o) {
                            assert(post_matches(arr@[i as int], o[i as int]));
                        }
                    }
                }
                return None;
            },
        }
        i += 1;
    }
    Some(out)
}

} // verus!
