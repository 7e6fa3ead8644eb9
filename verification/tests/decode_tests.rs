use discuit_rs::json::{parse_json, JsonValue};
use discuit_rs::responses::{
    decode_feed_response_body, decode_post_feed_response_body, decode_user_body,
    decode_user_response_body, FeedItem, FeedResponse, Next, UserResponse,
};

fn sample_user_json(username: &str) -> String {
    format!(
        "{{\"id\":\"u1\",\"username\":\"{}\",\"points\":10,\"isAdmin\":false,\"badges\":[{{\"id\":1,\"badgeTitle\":\"supporter\"}}],\"noPosts\":3,\"noComments\":7,\"createdAt\":\"2023-01-15T10:30:00Z\",\"deleted\":false,\"upvoteNotificationsOff\":false,\"replyNotificationsOff\":true,\"homeFeed\":\"all\",\"rememberFeedSort\":false,\"embedsOff\":false,\"hideUserProfilePictures\":false,\"isBanned\":false,\"notificationsNewCount\":0}}",
        username
    )
}

fn sample_image_json() -> String {
    "{\"id\":\"img1\",\"format\":\"jpeg\",\"mimetype\":\"image/jpeg\",\"width\":100,\"height\":80,\"size\":2048,\"averageColor\":\"rgb(10,20,30)\",\"url\":\"/images/img1.jpg\",\"copies\":[]}"
    .to_string()
}

fn sample_community_json() -> String {
    "{\"id\":\"c1\",\"userId\":\"u9\",\"name\":\"general\",\"nsfw\":false,\"noMembers\":420,\"createdAt\":\"2022-06-01T00:00:00Z\"}"
    .to_string()
}

fn sample_post_json(title: &str) -> String {
    format!(
        "{{\"id\":\"p1\",\"type\":\"text\",\"publicId\":\"abc123\",\"userId\":\"u1\",\"username\":\"alice\",\"userGroup\":\"normal\",\"userDeleted\":false,\"isPinned\":false,\"isPinnedSite\":false,\"communityId\":\"c1\",\"communityName\":\"general\",\"communityProPic\":{},\"communityBannerImage\":{},\"title\":\"{}\",\"locked\":false,\"upvotes\":12,\"downvotes\":2,\"hotness\":99,\"created_at\":\"2023-02-01T09:00:00Z\",\"lastActivityAt\":\"2023-02-02T09:00:00Z\",\"deleted\":false,\"deletedContent\":false,\"noComments\":1,\"isAuthorMuted\":false,\"isCommunityMuted\":false,\"community\":{}}}",
        sample_image_json(),
        sample_image_json(),
        title,
        sample_community_json()
    )
}

fn sample_comment_json(body: &str) -> String {
    format!(
        "{{\"id\":\"cm1\",\"postId\":\"p1\",\"postPublicId\":\"abc123\",\"communityId\":\"c1\",\"communityName\":\"general\",\"username\":\"bob\",\"userGroup\":\"normal\",\"userDeleted\":false,\"depth\":0,\"noReplies\":0,\"noDirectReplies\":0,\"body\":\"{}\",\"upvotes\":4,\"downvotes\":0,\"createdAt\":\"2023-02-03T12:00:00Z\",\"deleted\":false,\"author\":{},\"postDeleted\":false}}",
        body,
        sample_user_json("bob")
    )
}

#[test]
fn test_error_body_yields_api_error_variant() {
    let body = "{\"status\":404,\"code\":\"user_not_found\",\"message\":\"User not found.\"}";
    match decode_user_response_body(body) {
        Ok(UserResponse::Error(e)) => {
            assert_eq!(e.status, 404);
            assert_eq!(e.code, Some("user_not_found".to_string()));
            assert_eq!(e.message, "User not found.");
        }
        other => panic!("expected the error variant, got {:?}", other),
    }
}

#[test]
fn test_user_body_yields_user_variant() {
    let body = sample_user_json("alice");
    match decode_user_response_body(&body) {
        Ok(UserResponse::User(u)) => {
            assert_eq!(u.username, "alice");
            assert_eq!(u.points, 10);
            assert_eq!(u.badges.len(), 1);
            assert_eq!(u.badges[0].badge_type, "supporter");
            assert!(u.modding_list.is_none());
        }
        other => panic!("expected the user variant, got {:?}", other),
    }
}

#[test]
fn test_current_user_body_decodes() {
    let body = sample_user_json("carol");
    let u = decode_user_body(&body).expect("a bare user object must decode");
    assert_eq!(u.username, "carol");
    assert_eq!(u.created_at, "2023-01-15T10:30:00Z");
}

#[test]
fn test_invalid_timestamp_is_rejected() {
    let body = sample_user_json("alice").replace("2023-01-15T10:30:00Z", "not-a-timestamp");
    let e = decode_user_body(&body).expect_err("a bad timestamp must not decode");
    assert_eq!(e.target, "User");
    assert_eq!(e.body, body);
}

#[test]
fn test_decode_error_carries_raw_body() {
    let body = "{this is not json";
    let e = decode_user_response_body(body).expect_err("malformed JSON must not decode");
    assert_eq!(e.body, body);
    assert_eq!(e.target, "UserResponse");
}

#[test]
fn test_cursor_null_means_end_of_pagination() {
    let body = "{\"feed\":[],\"next\":null}";
    match decode_feed_response_body(body) {
        Ok(FeedResponse::Feed { feed, next }) => {
            assert!(feed.is_empty());
            assert!(next.is_none());
        }
        other => panic!("expected an empty feed page, got {:?}", other),
    }
}

#[test]
fn test_cursor_string_variant() {
    let body = "{\"feed\":[],\"next\":\"abc\"}";
    match decode_feed_response_body(body) {
        Ok(FeedResponse::Feed { next, .. }) => {
            assert_eq!(next, Some(Next::String("abc".to_string())));
        }
        other => panic!("expected a feed page, got {:?}", other),
    }
}

#[test]
fn test_cursor_integer_variant() {
    let body = "{\"feed\":[],\"next\":42}";
    match decode_feed_response_body(body) {
        Ok(FeedResponse::Feed { next, .. }) => {
            assert_eq!(next, Some(Next::Int(42)));
        }
        other => panic!("expected a feed page, got {:?}", other),
    }
}

#[test]
fn test_empty_string_cursor_is_not_end_of_pagination() {
    let body = "{\"feed\":[],\"next\":\"\"}";
    match decode_feed_response_body(body) {
        Ok(FeedResponse::Feed { next, .. }) => {
            assert_eq!(next, Some(Next::String(String::new())));
        }
        other => panic!("expected a feed page, got {:?}", other),
    }
}

#[test]
fn test_feed_error_body_yields_error_variant() {
    let body = "{\"status\":404,\"code\":\"user_not_found\",\"message\":\"User not found.\"}";
    match decode_feed_response_body(body) {
        Ok(FeedResponse::Error(e)) => {
            assert_eq!(e.status, 404);
            assert_eq!(e.code, Some("user_not_found".to_string()));
            assert_eq!(e.message, "User not found.");
        }
        other => panic!("expected the error variant, got {:?}", other),
    }
}

#[test]
fn test_feed_items_discriminate_posts_from_comments() {
    let body = format!(
        "{{\"feed\":[{},{}],\"next\":null}}",
        sample_post_json("hello"),
        sample_comment_json("a reply")
    );
    match decode_feed_response_body(&body) {
        Ok(FeedResponse::Feed { feed, .. }) => {
            assert_eq!(feed.len(), 2);
            match &feed[0] {
                FeedItem::Post(p) => assert_eq!(p.title, "hello"),
                other => panic!("expected a post first, got {:?}", other),
            }
            match &feed[1] {
                FeedItem::Comment(c) => {
                    assert_eq!(c.body, "a reply");
                    assert_eq!(c.author.username, "bob");
                }
                other => panic!("expected a comment second, got {:?}", other),
            }
        }
        other => panic!("expected a feed page, got {:?}", other),
    }
}

#[test]
fn test_post_feed_response_decodes() {
    let body = format!(
        "{{\"posts\":[{}],\"next\":\"cursor-1\"}}",
        sample_post_json("first post")
    );
    let page = decode_post_feed_response_body(&body).expect("the posts page must decode");
    assert_eq!(page.posts.len(), 1);
    assert_eq!(page.posts[0].title, "first post");
    assert_eq!(page.posts[0].community.name, "general");
    assert_eq!(page.next, Some("cursor-1".to_string()));
}

#[test]
fn test_post_feed_null_cursor_decodes_to_none() {
    let body = "{\"posts\":[],\"next\":null}";
    let page = decode_post_feed_response_body(body).expect("an empty posts page must decode");
    assert!(page.posts.is_empty());
    assert!(page.next.is_none());
}

#[test]
fn test_parse_json_builds_the_expected_tree() {
    let v = parse_json("[1,\"a\",null,true]").expect("well-formed JSON must parse");
    match v {
        JsonValue::Arr(items) => {
            assert_eq!(items.len(), 4);
            assert_eq!(items[0], JsonValue::Int(1));
            assert_eq!(items[1], JsonValue::Str("a".to_string()));
            assert_eq!(items[2], JsonValue::Null);
            assert_eq!(items[3], JsonValue::Bool(true));
        }
        other => panic!("expected an array, got {:?}", other),
    }
    assert!(parse_json("{nope").is_none());
}

#[test]
fn test_union_priority_prefers_user_over_error() {
    // A body that satisfies both shapes at once resolves to the variant
    // with priority: the user.
    let body = sample_user_json("eve")
        .replace("{\"id\"", "{\"status\":200,\"message\":\"ok\",\"id\"");
    match decode_user_response_body(&body) {
        Ok(UserResponse::User(u)) => assert_eq!(u.username, "eve"),
        other => panic!("expected the user variant to win, got {:?}", other),
    }
}

#[test]
fn test_fractional_cursor_is_a_decode_error() {
    let body = "{\"feed\":[],\"next\":1.5}";
    let e = decode_feed_response_body(body).expect_err("a fractional cursor must not decode");
    assert_eq!(e.target, "FeedResponse");
    assert_eq!(e.body, body);
}

#[test]
fn test_oversized_cursor_is_a_decode_error() {
    let body = "{\"feed\":[],\"next\":5000000000}";
    let e = decode_feed_response_body(body).expect_err("an oversized cursor must not decode");
    assert_eq!(e.target, "FeedResponse");
}

#[test]
fn test_negative_cursor_decodes() {
    let body = "{\"feed\":[],\"next\":-7}";
    match decode_feed_response_body(body) {
        Ok(FeedResponse::Feed { next, .. }) => assert_eq!(next, Some(Next::Int(-7))),
        other => panic!("expected a feed page, got {:?}", other),
    }
}
