//! The client: session state and one operation per API route.
//!
//! A [`DiscuitClient`] holds the two session credentials the server issues
//! on the handshake, the authenticated user, and the base URL.  Each
//! endpoint operation builds the [`HttpRequest`] to send; the caller's
//! transport performs it and hands the response back to the matching
//! `apply`/`interpret` function, which decodes it and updates the state.
//! The client never contacts the network itself, and a single client value
//! must not be driven by two callers at once: the state transitions below
//! assume one call in flight at a time.

use crate::http::{login_body_text, HttpMethod, HttpRequest, LoginRequest};
use crate::json::parsed_json;
use crate::responses::{
    decode_initial_response_body, decode_post_feed_response_body, decode_user_response_body,
    initial_response_matches, post_feed_response_matches, user_response_matches, DecodeError,
    InitialResponse, PostFeedResponse, UserResponse,
};
use crate::types::{LogLevel, User};
use crate::users::user_matches;
use vstd::prelude::*;

verus! {

/// A client of one Discuit instance.
///
/// The session credentials are empty strings until the handshake stores
/// them; the server, not the client, decides whether a call made with empty
/// credentials is acceptable.
#[derive(Debug)]
pub struct DiscuitClient {
    /// The anti-forgery token, as the server set it, or empty.
    pub csrf_token: String,
    /// The session identifier, as the server set it, or empty.
    pub session_id: String,
    /// The base URL of the instance, without a trailing slash.
    pub base_url: String,
    /// The user agent the transport should send.
    pub user_agent: String,
    /// The authenticated user, or nothing while the session is anonymous.
    pub user: Option<User>,
    /// How much the caller's logging side channel should report.
    pub log_level: LogLevel,
}

/// `s` with every trailing slash removed.
pub open spec fn trimmed_base(s: Seq<char>) -> Seq<char>
    decreases s.len(),
{
    if s.len() > 0 && s.last() == '/' {
        trimmed_base(s.drop_last())
    } else {
        s
    }
}

proof fn lemma_trimmed_prefix(s: Seq<char>, n: int)
    requires
        0 <= n <= s.len(),
        forall|j: int| n <= j < s.len() ==> s[j] == '/',
    ensures
        trimmed_base(s) == trimmed_base(s.take(n)),
    decreases s.len() - n,
{
    if n == s.len() {
        assert(s.take(n) =~= s);
    } else {
        assert(s[s.len() - 1] == '/');
        assert(s.drop_last() =~= s.take(s.len() - 1));
        lemma_trimmed_prefix(s.take(s.len() - 1), n);
        assert(s.take(s.len() - 1).take(n) =~= s.take(n));
    }
}

/// Removes every trailing slash.
fn trim_base(s: &str) -> (r: String)
    ensures
        r@ == trimmed_base(s@),
{
    let len = s.unicode_len();
    let mut n = len;
    while n > 0 && s.get_char(n - 1) == '/'
        invariant
            n <= len,
            len == s@.len(),
            forall|j: int| n <= j < len ==> s@[j] == '/',
        decreases n,
    {
        n = n - 1;
    }
    let r = s.substring_char(0, n);
    proof {
        lemma_trimmed_prefix(s@, n as int);
        assert(s@.subrange(0, n as int) =~= s@.take(n as int));
    }
    r.to_owned()
}

/// The value of the `Cookie` header for a pair of session credentials.
pub open spec fn cookie_header_text(csrf: Seq<char>, sid: Seq<char>) -> Seq<char> {
    "csrftoken="@ + csrf + "; SID="@ + sid
}

/// `h` is exactly the authentication header set for the credentials: the
/// anti-forgery token under its own header, and both credentials echoed in
/// the `Cookie` header.
pub open spec fn headers_are_auth(h: Seq<(String, String)>, csrf: Seq<char>, sid: Seq<char>) -> bool {
    &&& h.len() == 2
    &&& h[0].0@ == "X-Csrf-Token"@
    &&& h[0].1@ == csrf
    &&& h[1].0@ == "Cookie"@
    &&& h[1].1@ == cookie_header_text(csrf, sid)
}

/// The value of the last cookie named `name`, if one was set.
pub open spec fn last_cookie(cookies: Seq<(String, String)>, name: Seq<char>) -> Option<String>
    decreases cookies.len(),
{
    if cookies.len() == 0 {
        None
    } else if cookies.last().0@ == name {
        Some(cookies.last().1)
    } else {
        last_cookie(cookies.drop_last(), name)
    }
}

impl DiscuitClient {
    /// Creates a client for the instance at `base_url`; a trailing slash is
    /// stripped.  The session starts uninitialized: both credentials empty
    /// and no authenticated user.
    pub fn new(base_url: &str) -> (r: Self)
        ensures
            r.base_url@ == trimmed_base(base_url@),
            r.csrf_token@ == Seq::<char>::empty(),
            r.session_id@ == Seq::<char>::empty(),
            r.user is None,
            r.user_agent@ == "DiscuitClient"@,
            r.log_level == LogLevel::Debug,
    {
        DiscuitClient {
            csrf_token: String::new(),
            session_id: String::new(),
            base_url: trim_base(base_url),
            user_agent: String::from_str("DiscuitClient"),
            user: None,
            log_level: LogLevel::Debug,
        }
    }

    /// Clears both credentials and the authenticated user, atomically from
    /// the caller's point of view.  Calling it again changes nothing, so it
    /// is safe to call redundantly.
    pub fn reset(&mut self)
        ensures
            final(self).csrf_token@ == Seq::<char>::empty(),
            final(self).session_id@ == Seq::<char>::empty(),
            final(self).user is None,
            final(self).base_url == old(self).base_url,
            final(self).user_agent == old(self).user_agent,
            final(self).log_level == old(self).log_level,
    {
        self.csrf_token = String::new();
        self.session_id = String::new();
        self.user = None;
    }

    /// Renders the authentication headers from the current credentials.
    /// They are rebuilt on every call, never cached, since the server may
    /// rotate the tokens.
    pub fn build_auth_headers(&self) -> (r: Vec<(String, String)>)
        ensures
            headers_are_auth(r@, self.csrf_token@, self.session_id@),
    {
        let mut cookie = String::from_str("csrftoken=");
        cookie.append(self.csrf_token.as_str());
        cookie.append("; SID=");
        cookie.append(self.session_id.as_str());
        let mut out: Vec<(String, String)> = Vec::new();
        out.push((String::from_str("X-Csrf-Token"), self.csrf_token.clone()));
        out.push((String::from_str("Cookie"), cookie));
        out
    }

    /// Stores the session cookies of a handshake response: whichever of the
    /// two session cookies are present are stored verbatim, the last
    /// occurrence winning; a missing cookie leaves the stored value as it
    /// was.  A missing cookie is not an error at this layer.
    pub fn apply_initial_cookies(&mut self, cookies: &Vec<(String, String)>)
        ensures
            final(self).csrf_token == match last_cookie(cookies@, "csrftoken"@) {
                Some(x) => x,
                None => old(self).csrf_token,
            },
            final(self).session_id == match last_cookie(cookies@, "SID"@) {
                Some(x) => x,
                None => old(self).session_id,
            },
            final(self).base_url == old(self).base_url,
            final(self).user_agent == old(self).user_agent,
            final(self).user == old(self).user,
            final(self).log_level == old(self).log_level,
    {
        let csrf_key: String = "csrftoken".to_owned();
        let sid_key: String = "SID".to_owned();
        proof {
            reveal_strlit("csrftoken");
            reveal_strlit("SID");
            assert("csrftoken"@.len() == 9);
            assert("SID"@.len() == 3);
            assert("csrftoken"@ != "SID"@);
        }
        let mut i: usize = 0;
        while i < cookies.len()
            invariant
                i <= cookies@.len(),
                csrf_key@ == "csrftoken"@,
                sid_key@ == "SID"@,
                "csrftoken"@ != "SID"@,
                self.csrf_token == match last_cookie(cookies@.take(i as int), "csrftoken"@) {
                    Some(x) => x,
                    None => old(self).csrf_token,
                },
                self.session_id == match last_cookie(cookies@.take(i as int), "SID"@) {
                    Some(x) => x,
                    None => old(self).session_id,
                },
                self.base_url == old(self).base_url,
                self.user_agent == old(self).user_agent,
                self.user == old(self).user,
                self.log_level == old(self).log_level,
            decreases cookies@.len() - i,
        {
            proof {
                assert(cookies@.take(i as int + 1).drop_last() =~= cookies@.take(i as int));
                assert(cookies@.take(i as int + 1).last() == cookies@[i as int]);
            }
            if cookies[i].0 == csrf_key {
                self.csrf_token = cookies[i].1.clone();
            } else if cookies[i].0 == sid_key {
                self.session_id = cookies[i].1.clone();
            }
            i += 1;
        }
        proof {
            assert(cookies@.take(cookies@.len() as int) =~= cookies@);
        }
    }

    /// The request of the handshake endpoint.  It is unauthenticated: no
    /// session headers are sent.
    pub fn initial_request(&self) -> (r: HttpRequest)
        ensures
            r.method == HttpMethod::Get,
            r.url@ == self.base_url@ + "/api/_initial"@,
            r.query@.len() == 0,
            r.headers@.len() == 0,
            r.body is None,
    {
        let mut url = self.base_url.clone();
        url.append("/api/_initial");
        HttpRequest {
            method: HttpMethod::Get,
            url,
            query: Vec::new(),
            headers: Vec::new(),
            body: None,
        }
    }

    /// Finishes the handshake: stores the session cookies of the response,
    /// then decodes its body.  The cookies are stored even when the body
    /// does not decode.
    pub fn apply_initial_response(&mut self, cookies: &Vec<(String, String)>, body: &str) -> (r:
        Result<InitialResponse, DecodeError>)
        ensures
            final(self).csrf_token == match last_cookie(cookies@, "csrftoken"@) {
                Some(x) => x,
                None => old(self).csrf_token,
            },
            final(self).session_id == match last_cookie(cookies@, "SID"@) {
                Some(x) => x,
                None => old(self).session_id,
            },
            final(self).base_url == old(self).base_url,
            final(self).user_agent == old(self).user_agent,
            final(self).user == old(self).user,
            final(self).log_level == old(self).log_level,
            match r {
                Ok(out) => parsed_json(body@) is Some && initial_response_matches(
                    parsed_json(body@)->0,
                    out,
                ),
                Err(e) => {
                    &&& e.body@ == body@
                    &&& e.target@ == "InitialResponse"@
                    &&& parsed_json(body@) is None || forall|out: InitialResponse|
                        !initial_response_matches(parsed_json(body@)->0, out)
                },
            },
    {
        self.apply_initial_cookies(cookies);
        decode_initial_response_body(body)
    }

    /// The request of the login endpoint: a POST with the authentication
    /// headers and the credentials as its JSON body.
    pub fn login_request(&self, username: &str, password: &str) -> (r: HttpRequest)
        ensures
            r.method == HttpMethod::Post,
            r.url@ == self.base_url@ + "/api/_login"@,
            r.query@.len() == 0,
            headers_are_auth(r.headers@, self.csrf_token@, self.session_id@),
            r.body matches Some(b) && b@ == login_body_text(username@, password@),
    {
        let mut url = self.base_url.clone();
        url.append("/api/_login");
        let request = LoginRequest { username: username.to_owned(), password: password.to_owned() };
        HttpRequest {
            method: HttpMethod::Post,
            url,
            query: Vec::new(),
            headers: self.build_auth_headers(),
            body: Some(request.to_json()),
        }
    }

    /// Interprets the body of the login response and updates the session.
    ///
    /// When the body resolves to the user variant, that user becomes the
    /// authenticated user of the session.  When it resolves to the error
    /// variant, the session's user is left exactly as it was: a failed
    /// login must not destroy a session that is already authenticated.  A
    /// body matching neither shape is a decode error and also leaves the
    /// session unchanged.
    pub fn apply_login_body(&mut self, body: &str) -> (r: Result<UserResponse, DecodeError>)
        ensures
            final(self).csrf_token == old(self).csrf_token,
            final(self).session_id == old(self).session_id,
            final(self).base_url == old(self).base_url,
            final(self).user_agent == old(self).user_agent,
            final(self).log_level == old(self).log_level,
            match r {
                Ok(out) => {
                    &&& parsed_json(body@) is Some
                    &&& user_response_matches(parsed_json(body@)->0, out)
                    &&& match out {
                        UserResponse::User(_) => final(self).user matches Some(u) && user_matches(
                            parsed_json(body@)->0,
                            u,
                        ),
                        UserResponse::Error(_) => final(self).user == old(self).user,
                    }
                },
                Err(e) => {
                    &&& final(self).user == old(self).user
                    &&& e.body@ == body@
                    &&& e.target@ == "UserResponse"@
                    &&& parsed_json(body@) is None || forall|out: UserResponse|
                        !user_response_matches(parsed_json(body@)->0, out)
                },
            },
    {
        match decode_user_response_body(body) {
            Ok(out) => {
                match out {
                    UserResponse::User(u) => {
                        self.user = Some(u);
                        match decode_user_response_body(body) {
                            Ok(out2) => Ok(out2),
                            Err(_) => {
                                proof {
                                    assert(false);
                                }
                                Err(
                                    DecodeError {
                                        body: body.to_owned(),
                                        target: String::from_str("UserResponse"),
                                    },
                                )
                            },
                        }
                    },
                    UserResponse::Error(e) => Ok(UserResponse::Error(e)),
                }
            },
            Err(e) => Err(e),
        }
    }

    /// The logout step: with no authenticated user there is nothing to do
    /// and no request to send — logging out twice is as good as logging out
    /// once.  Otherwise the server-side logout request is returned; after
    /// the transport completes the exchange, the caller clears the session
    /// with [`DiscuitClient::reset`], whatever the server answered.
    pub fn logout_step(&self) -> (r: Option<HttpRequest>)
        ensures
            r is None <==> self.user is None,
            match r {
                Some(req) => {
                    &&& req.method == HttpMethod::Post
                    &&& req.url@ == self.base_url@ + "/api/_login?action=logout"@
                    &&& req.query@.len() == 0
                    &&& headers_are_auth(req.headers@, self.csrf_token@, self.session_id@)
                    &&& req.body is None
                },
                None => true,
            },
    {
        if self.user.is_none() {
            return None;
        }
        let mut url = self.base_url.clone();
        url.append("/api/_login?action=logout");
        Some(
            HttpRequest {
                method: HttpMethod::Post,
                url,
                query: Vec::new(),
                headers: self.build_auth_headers(),
                body: None,
            },
        )
    }

    /// The request of the current-user endpoint.
    pub fn get_user_request(&self) -> (r: HttpRequest)
        ensures
            r.method == HttpMethod::Get,
            r.url@ == self.base_url@ + "/api/_user"@,
            r.query@.len() == 0,
            headers_are_auth(r.headers@, self.csrf_token@, self.session_id@),
            r.body is None,
    {
        let mut url = self.base_url.clone();
        url.append("/api/_user");
        HttpRequest {
            method: HttpMethod::Get,
            url,
            query: Vec::new(),
            headers: self.build_auth_headers(),
            body: None,
        }
    }

    /// The request of the user-by-name endpoint.
    pub fn get_user_by_username_request(&self, username: &str) -> (r: HttpRequest)
        ensures
            r.method == HttpMethod::Get,
            r.url@ == self.base_url@ + "/api/users/"@ + username@,
            r.query@.len() == 0,
            headers_are_auth(r.headers@, self.csrf_token@, self.session_id@),
            r.body is None,
    {
        let mut url = self.base_url.clone();
        url.append("/api/users/");
        url.append(username);
        HttpRequest {
            method: HttpMethod::Get,
            url,
            query: Vec::new(),
            headers: self.build_auth_headers(),
            body: None,
        }
    }

    /// The request of the user-feed endpoint.
    pub fn get_feed_request(&self, username: &str) -> (r: HttpRequest)
        ensures
            r.method == HttpMethod::Get,
            r.url@ == self.base_url@ + "/api/users/"@ + username@ + "/feed"@,
            r.query@.len() == 0,
            headers_are_auth(r.headers@, self.csrf_token@, self.session_id@),
            r.body is None,
    {
        let mut url = self.base_url.clone();
        url.append("/api/users/");
        url.append(username);
        url.append("/feed");
        HttpRequest {
            method: HttpMethod::Get,
            url,
            query: Vec::new(),
            headers: self.build_auth_headers(),
            body: None,
        }
    }

    /// The request of the posts-listing endpoint.  The sort defaults to
    /// `hot` when the caller gives none, and the community filter is left
    /// out entirely — not sent empty — when the caller gives none.
    pub fn get_posts_request(&self, sort: Option<&str>, community: Option<&str>) -> (r:
        HttpRequest)
        ensures
            r.method == HttpMethod::Get,
            r.url@ == self.base_url@ + "/api/posts"@,
            headers_are_auth(r.headers@, self.csrf_token@, self.session_id@),
            r.body is None,
            r.query@.len() == if community is Some {
                2int
            } else {
                1int
            },
            r.query@[0].0@ == "sort"@,
            r.query@[0].1@ == match sort {
                Some(s) => s@,
                None => "hot"@,
            },
            community matches Some(c) ==> r.query@[1].0@ == "community"@ && r.query@[1].1@ == c@,
            forall|i: int|
                0 <= i < r.query@.len() ==> (r.query@[i].0@ == "community"@ ==> community is Some
                    && i == 1),
    {
        proof {
            reveal_strlit("sort");
            reveal_strlit("community");
            assert("sort"@.len() == 4);
            assert("community"@.len() == 9);
            assert("sort"@ != "community"@);
        }
        let mut url = self.base_url.clone();
        url.append("/api/posts");
        let sort_value: String = match sort {
            Some(s) => s.to_owned(),
            None => String::from_str("hot"),
        };
        let mut query: Vec<(String, String)> = Vec::new();
        query.push((String::from_str("sort"), sort_value));
        match community {
            Some(c) => {
                query.push((String::from_str("community"), c.to_owned()));
            },
            None => {},
        }
        HttpRequest {
            method: HttpMethod::Get,
            url,
            query,
            headers: self.build_auth_headers(),
            body: None,
        }
    }
}

/// An error of the posts-listing operation: either the server answered
/// outside the success range, or the body of a success response matched no
/// declared shape.
#[derive(Debug, Clone, PartialEq, Eq)]
pub enum PostsError {
    /// The server answered with a status outside the success range; the
    /// raw body is kept for diagnosis.
    Http { status: u16, body: String },
    /// The body of a success response did not decode.
    Decode(DecodeError),
}

/// Interprets the posts-listing response.  A success status has its body
/// decoded; any other status surfaces the raw body as an error, distinct
/// from a successful-but-empty page.
pub fn interpret_posts_response(status: u16, body: &str) -> (r: Result<
    PostFeedResponse,
    PostsError,
>)
    ensures
        match r {
            Ok(out) => {
                &&& 200 <= status < 300
                &&& parsed_json(body@) is Some
                &&& post_feed_response_matches(parsed_json(body@)->0, out)
            },
            Err(PostsError::Http { status: st, body: b }) => {
                &&& !(200 <= status < 300)
                &&& st == status
                &&& b@ == body@
            },
            Err(PostsError::Decode(e)) => {
                &&& 200 <= status < 300
                &&& e.body@ == body@
                &&& e.target@ == "PostFeedResponse"@
                &&& parsed_json(body@) is None || forall|out: PostFeedResponse|
                    !post_feed_response_matches(parsed_json(body@)->0, out)
            },
        },
{
    if 200 <= status && status < 300 {
        match decode_post_feed_response_body(body) {
            Ok(out) => Ok(out),
            Err(e) => Err(PostsError::Decode(e)),
        }
    } else {
        Err(PostsError::Http { status, body: body.to_owned() })
    }
}

} // verus!
