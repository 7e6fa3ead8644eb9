use discuit_rs::client::{interpret_posts_response, DiscuitClient, PostsError};
use discuit_rs::http::{request_url, HttpMethod, LoginRequest};
use discuit_rs::responses::UserResponse;
use discuit_rs::types::{LogLevel, Sort};

fn sample_user_json(username: &str) -> String {
    format!(
        "{{\"id\":\"u1\",\"username\":\"{}\",\"points\":10,\"isAdmin\":false,\"badges\":[],\"noPosts\":3,\"noComments\":7,\"createdAt\":\"2023-01-15T10:30:00Z\",\"deleted\":false,\"upvoteNotificationsOff\":false,\"replyNotificationsOff\":true,\"homeFeed\":\"all\",\"rememberFeedSort\":false,\"embedsOff\":false,\"hideUserProfilePictures\":false,\"isBanned\":false,\"notificationsNewCount\":0}}",
        username
    )
}

fn cookies(pairs: &[(&str, &str)]) -> Vec<(String, String)> {
    pairs.iter().map(|p| (p.0.to_string(), p.1.to_string())).collect()
}

#[test]
fn test_new_trims_trailing_slash() {
    let client = DiscuitClient::new("https://discuit.net/");
    assert_eq!(client.base_url, "https://discuit.net");
    assert!(client.csrf_token.is_empty());
    assert!(client.session_id.is_empty());
    assert!(client.user.is_none());
    assert_eq!(client.user_agent, "DiscuitClient");
}

#[test]
fn test_initialize_stores_cookies_and_reset_clears_them() {
    let mut client = DiscuitClient::new("https://discuit.net");
    client.apply_initial_cookies(&cookies(&[
        ("other", "x"),
        ("csrftoken", "tok-1"),
        ("SID", "sid-1"),
    ]));
    assert!(!client.csrf_token.is_empty());
    assert!(!client.session_id.is_empty());
    assert_eq!(client.csrf_token, "tok-1");
    assert_eq!(client.session_id, "sid-1");

    client.reset();
    assert!(client.csrf_token.is_empty());
    assert!(client.session_id.is_empty());
    assert!(client.user.is_none());
}

#[test]
fn test_last_cookie_wins_and_missing_cookie_keeps_value() {
    let mut client = DiscuitClient::new("https://discuit.net");
    client.apply_initial_cookies(&cookies(&[("csrftoken", "first"), ("csrftoken", "second")]));
    assert_eq!(client.csrf_token, "second");
    assert!(client.session_id.is_empty());

    client.apply_initial_cookies(&cookies(&[("SID", "sid-9")]));
    assert_eq!(client.csrf_token, "second");
    assert_eq!(client.session_id, "sid-9");
}

#[test]
fn test_initialize_applies_body() {
    let mut client = DiscuitClient::new("https://discuit.net");
    let body = "{\"reportReasons\":[{\"id\":1,\"title\":\"Spam\"}],\"user\":null,\"communities\":[],\"noUsers\":12345,\"vapidPublicKey\":\"key-material\",\"mutes\":{}}";
    let response = client
        .apply_initial_response(&cookies(&[("csrftoken", "t"), ("SID", "s")]), body)
        .expect("the handshake body must decode");
    assert_eq!(response.no_users, 12345);
    assert_eq!(response.vapid_public_key, "key-material");
    assert_eq!(response.report_reasons.len(), 1);
    assert_eq!(response.report_reasons[0].title, "Spam");
    assert!(response.user.is_none());
    assert_eq!(client.csrf_token, "t");
    assert_eq!(client.session_id, "s");
}

#[test]
fn test_auth_headers_echo_both_credentials() {
    let mut client = DiscuitClient::new("https://discuit.net");
    client.apply_initial_cookies(&cookies(&[("csrftoken", "tok"), ("SID", "sid")]));
    let headers = client.build_auth_headers();
    assert_eq!(headers.len(), 2);
    assert_eq!(headers[0].0, "X-Csrf-Token");
    assert_eq!(headers[0].1, "tok");
    assert_eq!(headers[1].0, "Cookie");
    assert_eq!(headers[1].1, "csrftoken=tok; SID=sid");
}

#[test]
fn test_login_sets_user_and_logout_clears_session() {
    let mut client = DiscuitClient::new("https://discuit.net");
    client.apply_initial_cookies(&cookies(&[("csrftoken", "tok"), ("SID", "sid")]));

    let body = sample_user_json("alice");
    match client.apply_login_body(&body) {
        Ok(UserResponse::User(u)) => assert_eq!(u.username, "alice"),
        other => panic!("expected the user variant, got {:?}", other),
    }
    assert_eq!(client.user.as_ref().map(|u| u.username.as_str()), Some("alice"));

    let request = client.logout_step().expect("an authenticated client must send a logout");
    assert_eq!(request.method, HttpMethod::Post);
    assert_eq!(request.url, "https://discuit.net/api/_login?action=logout");

    client.reset();
    assert!(client.user.is_none());
    assert!(client.csrf_token.is_empty());
    assert!(client.session_id.is_empty());
}

#[test]
fn test_idempotent_logout_sends_nothing() {
    let client = DiscuitClient::new("https://discuit.net");
    assert!(client.logout_step().is_none());
}

#[test]
fn test_failed_login_does_not_clobber_session() {
    let mut client = DiscuitClient::new("https://discuit.net");
    client.apply_initial_cookies(&cookies(&[("csrftoken", "tok"), ("SID", "sid")]));
    client
        .apply_login_body(&sample_user_json("alice"))
        .expect("the first login body must decode");
    assert!(client.user.is_some());

    let error_body =
        "{\"status\":401,\"code\":\"invalid_credentials\",\"message\":\"Wrong password.\"}";
    match client.apply_login_body(error_body) {
        Ok(UserResponse::Error(e)) => assert_eq!(e.status, 401),
        other => panic!("expected the error variant, got {:?}", other),
    }
    assert_eq!(client.user.as_ref().map(|u| u.username.as_str()), Some("alice"));
    assert_eq!(client.csrf_token, "tok");
    assert_eq!(client.session_id, "sid");
}

#[test]
fn test_default_query_parameters() {
    let client = DiscuitClient::new("https://discuit.net");
    let request = client.get_posts_request(None, None);
    assert_eq!(request.method, HttpMethod::Get);
    assert_eq!(request.url, "https://discuit.net/api/posts");
    assert_eq!(request.query.len(), 1);
    assert_eq!(request.query[0].0, "sort");
    assert_eq!(request.query[0].1, "hot");
    assert!(request.query.iter().all(|p| p.0 != "community"));

    let url = request_url(&request).expect("the posts URL must render");
    assert_eq!(url, "https://discuit.net/api/posts?sort=hot");
}

#[test]
fn test_posts_query_with_sort_and_community() {
    let client = DiscuitClient::new("https://discuit.net");
    let request = client.get_posts_request(Some("new"), Some("general"));
    assert_eq!(request.query.len(), 2);
    assert_eq!(request.query[0], ("sort".to_string(), "new".to_string()));
    assert_eq!(request.query[1], ("community".to_string(), "general".to_string()));

    let url = request_url(&request).expect("the posts URL must render");
    assert_eq!(url, "https://discuit.net/api/posts?sort=new&community=general");
}

#[test]
fn test_endpoint_request_urls_and_headers() {
    let mut client = DiscuitClient::new("https://discuit.net");
    client.apply_initial_cookies(&cookies(&[("csrftoken", "tok"), ("SID", "sid")]));

    let initial = client.initial_request();
    assert_eq!(initial.method, HttpMethod::Get);
    assert_eq!(initial.url, "https://discuit.net/api/_initial");
    assert!(initial.headers.is_empty());

    let login = client.login_request("alice", "secret");
    assert_eq!(login.method, HttpMethod::Post);
    assert_eq!(login.url, "https://discuit.net/api/_login");
    assert_eq!(login.headers[1].1, "csrftoken=tok; SID=sid");

    let current_user = client.get_user_request();
    assert_eq!(current_user.url, "https://discuit.net/api/_user");
    assert_eq!(current_user.headers[0].0, "X-Csrf-Token");
    assert_eq!(current_user.headers[0].1, "tok");

    let by_name = client.get_user_by_username_request("bob");
    assert_eq!(by_name.url, "https://discuit.net/api/users/bob");

    let feed = client.get_feed_request("bob");
    assert_eq!(feed.url, "https://discuit.net/api/users/bob/feed");
}

#[test]
fn test_login_request_body_is_escaped_json() {
    let client = DiscuitClient::new("https://discuit.net");
    let request = client.login_request("alice", "p@ss\"word");
    assert_eq!(
        request.body.as_deref(),
        Some("{\"username\":\"alice\",\"password\":\"p@ss\\\"word\"}")
    );

    let login = LoginRequest { username: "a\nb".to_string(), password: "c\\d".to_string() };
    assert_eq!(login.to_json(), "{\"username\":\"a\\nb\",\"password\":\"c\\\\d\"}");
}

#[test]
fn test_posts_response_interpretation() {
    let ok = interpret_posts_response(200, "{\"posts\":[],\"next\":null}")
        .expect("a success body must decode");
    assert!(ok.posts.is_empty());

    match interpret_posts_response(500, "boom") {
        Err(PostsError::Http { status, body }) => {
            assert_eq!(status, 500);
            assert_eq!(body, "boom");
        }
        other => panic!("expected an HTTP error, got {:?}", other),
    }

    match interpret_posts_response(200, "not json") {
        Err(PostsError::Decode(e)) => {
            assert_eq!(e.target, "PostFeedResponse");
            assert_eq!(e.body, "not json");
        }
        other => panic!("expected a decode error, got {:?}", other),
    }
}

#[test]
fn test_sort_to_string() {
    assert_eq!(Sort::Hot.to_string(), "hot");
    assert_eq!(Sort::Activity.to_string(), "activity");
    assert_eq!(Sort::New.to_string(), "new");
    assert_eq!(Sort::Day.to_string(), "day");
    assert_eq!(Sort::Week.to_string(), "week");
    assert_eq!(Sort::Month.to_string(), "month");
    assert_eq!(Sort::Year.to_string(), "year");
}

#[test]
fn test_log_level_default_and_labels() {
    assert_eq!(LogLevel::default(), LogLevel::Info);
    assert_eq!(LogLevel::Debug.to_string(), "DEBUG");
    assert_eq!(LogLevel::Info.to_string(), "INFO");
    assert_eq!(LogLevel::Warning.to_string(), "WARNING");
    assert_eq!(LogLevel::Error.to_string(), "ERROR");
    assert_eq!(LogLevel::Silent.to_string(), "SILENT");
    assert!(LogLevel::Debug < LogLevel::Info);
}
