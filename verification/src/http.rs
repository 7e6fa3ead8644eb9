//! The description of an outgoing request.
//!
//! The client never performs a request itself: each endpoint operation
//! produces an [`HttpRequest`] that says exactly what to send, and the
//! caller's transport carries it out and hands the response back.

use vstd::prelude::*;

verus! {

/// The HTTP method of a request.
#[derive(Debug, Clone, Copy, PartialEq, Eq)]
pub enum HttpMethod {
    Get,
    Post,
}

/// Everything the transport needs to perform one request: the method, the
/// URL without its query, the query pairs still to be encoded, the headers,
/// and the body, if there is one.
#[derive(Debug, PartialEq, Eq)]
pub struct HttpRequest {
    /// The HTTP method.
    pub method: HttpMethod,
    /// The URL, without the query pairs of `query`.
    pub url: String,
    /// Query pairs to be encoded into the URL, in order.
    pub query: Vec<(String, String)>,
    /// Headers to send, in order.
    pub headers: Vec<(String, String)>,
    /// The request body, if the request has one.
    pub body: Option<String>,
}

/// The views of a sequence of name/value pairs.
pub open spec fn pairs_view(pairs: Seq<(String, String)>) -> Seq<(Seq<char>, Seq<char>)> {
    pairs.map_values(|p: (String, String)| (p.0@, p.1@))
}

/// The URL the outside URL library renders for a base text and query
/// pairs, or nothing when it does not accept the base text.
pub uninterp spec fn url_with_query(base: Seq<char>, pairs: Seq<(Seq<char>, Seq<char>)>) -> Option<
    Seq<char>,
>;

/// The cap on the characters handed to the URL renderer in one request.
pub const MAX_URL_INPUT_CHARS: usize = 0x10000000;

/// The characters of all names and values of the pairs together.
pub open spec fn pairs_total_len(pairs: Seq<(Seq<char>, Seq<char>)>) -> nat
    decreases pairs.len(),
{
    if pairs.len() == 0 {
        0
    } else {
        pairs_total_len(pairs.drop_last()) + pairs.last().0.len() + pairs.last().1.len()
    }
}

/// The base text and the pairs, separators counted, stay under the cap.
pub open spec fn render_size_ok(base: Seq<char>, pairs: Seq<(Seq<char>, Seq<char>)>) -> bool {
    base.len() + pairs_total_len(pairs) + 2 * pairs.len() < MAX_URL_INPUT_CHARS
}

proof fn lemma_pairs_total_len_take_succ(pairs: Seq<(Seq<char>, Seq<char>)>, i: int)
    requires
        0 <= i < pairs.len(),
    ensures
        pairs_total_len(pairs.take(i + 1)) == pairs_total_len(pairs.take(i)) + pairs[i].0.len()
            + pairs[i].1.len(),
{
    assert(pairs.take(i + 1).drop_last() =~= pairs.take(i));
    assert(pairs.take(i + 1).last() == pairs[i]);
}

proof fn lemma_pairs_total_len_take_le(pairs: Seq<(Seq<char>, Seq<char>)>, i: int)
    requires
        0 <= i <= pairs.len(),
    ensures
        pairs_total_len(pairs.take(i)) <= pairs_total_len(pairs),
    decreases pairs.len() - i,
{
    if i == pairs.len() {
        assert(pairs.take(i) =~= pairs);
    } else {
        lemma_pairs_total_len_take_succ(pairs, i);
        lemma_pairs_total_len_take_le(pairs, i + 1);
    }
}

/// Relies on `url::Url::parse` and on `extend_pairs` of the serializer
/// returned by `url::Url::query_pairs_mut`: the rendered URL, with the
/// pairs percent-encoded into its query, depends on the base text and the
/// pairs alone.  The serializer aborts, by a panicking length conversion,
/// when a URL's text reaches 4 GiB, so the inputs are required to stay far
/// below that: one input character contributes at most twelve bytes to the
/// rendered URL (four UTF-8 bytes, each percent-encoded to three), which
/// keeps the rendered text under `u32::MAX` with room to spare.
#[verifier::external_body]
pub(crate) fn render_url(base: &str, pairs: &Vec<(String, String)>) -> (r: Option<String>)
    requires
        render_size_ok(base@, pairs_view(pairs@)),
    ensures
        match r {
            Some(u) => url_with_query(base@, pairs_view(pairs@)) == Some(u@),
            None => url_with_query(base@, pairs_view(pairs@)) is None,
        },
{
    match url::Url::parse(base) {
        Ok(mut u) => {
            u.query_pairs_mut().extend_pairs(pairs.iter().map(|p| (p.0.as_str(), p.1.as_str())));
            Some(String::from(u))
        },
        Err(_) => None,
    }
}

/// Renders the full URL of a request: the URL itself when there are no
/// query pairs, else the URL with the pairs encoded into its query.
/// Nothing comes back when the renderer does not accept the URL, or when
/// the request's text is too large to render safely.
pub fn request_url(req: &HttpRequest) -> (r: Option<String>)
    ensures
        match r {
            Some(u) => if req.query@.len() == 0 {
                u@ == req.url@
            } else {
                url_with_query(req.url@, pairs_view(req.query@)) == Some(u@)
            },
            None => req.query@.len() > 0 && (!render_size_ok(req.url@, pairs_view(req.query@))
                || url_with_query(req.url@, pairs_view(req.query@)) is None),
        },
{
    if req.query.len() == 0 {
        return Some(req.url.clone());
    }
    let ghost pv = pairs_view(req.query@);
    let mut total: usize = req.url.as_str().unicode_len();
    if total >= MAX_URL_INPUT_CHARS {
        return None;
    }
    let n = req.query.len();
    let mut i: usize = 0;
    while i < n
        invariant
            0 < req.query@.len(),
            n == req.query@.len(),
            i <= n,
            pv == pairs_view(req.query@),
            pv.len() == n,
            total < MAX_URL_INPUT_CHARS,
            total as int == req.url@.len() + pairs_total_len(pv.take(i as int)) + 2 * (i as int),
        decreases n - i,
    {
        let a = req.query[i].0.as_str().unicode_len();
        let b = req.query[i].1.as_str().unicode_len();
        proof {
            lemma_pairs_total_len_take_succ(pv, i as int);
            lemma_pairs_total_len_take_le(pv, i as int + 1);
        }
        if a >= MAX_URL_INPUT_CHARS || b >= MAX_URL_INPUT_CHARS {
            return None;
        }
        let next_total = total + 2 + a + b;
        if next_total >= MAX_URL_INPUT_CHARS {
            return None;
        }
        total = next_total;
        i += 1;
    }
    proof {
        assert(pv.take(n as int) =~= pv);
    }
    render_url(req.url.as_str(), &req.query)
}

/// One hexadecimal digit, lower case.
pub open spec fn hex_digit_seq(d: int) -> Seq<char> {
    if d == 0 {
        "0"@
    } else if d == 1 {
        "1"@
    } else if d == 2 {
        "2"@
    } else if d == 3 {
        "3"@
    } else if d == 4 {
        "4"@
    } else if d == 5 {
        "5"@
    } else if d == 6 {
        "6"@
    } else if d == 7 {
        "7"@
    } else if d == 8 {
        "8"@
    } else if d == 9 {
        "9"@
    } else if d == 10 {
        "a"@
    } else if d == 11 {
        "b"@
    } else if d == 12 {
        "c"@
    } else if d == 13 {
        "d"@
    } else if d == 14 {
        "e"@
    } else {
        "f"@
    }
}

/// Renders one hexadecimal digit.
fn hex_digit_str(d: u8) -> (r: &'static str)
    requires
        d < 16,
    ensures
        r@ == hex_digit_seq(d as int),
{
    match d {
        0 => "0",
        1 => "1",
        2 => "2",
        3 => "3",
        4 => "4",
        5 => "5",
        6 => "6",
        7 => "7",
        8 => "8",
        9 => "9",
        10 => "a",
        11 => "b",
        12 => "c",
        13 => "d",
        14 => "e",
        _ => "f",
    }
}

/// How one character appears inside a JSON string literal: quotes and
/// backslashes are escaped, the common control characters take their short
/// escapes, any other control character takes a `\u00..` escape, and every
/// other character stands for itself.
pub open spec fn escaped_char(c: char) -> Seq<char> {
    if c == '"' {
        "\\\""@
    } else if c == '\\' {
        "\\\\"@
    } else if c == '\n' {
        "\\n"@
    } else if c == '\r' {
        "\\r"@
    } else if c == '\t' {
        "\\t"@
    } else if (c as int) < 32 {
        "\\u00"@ + hex_digit_seq((c as int) / 16) + hex_digit_seq((c as int) % 16)
    } else {
        seq![c]
    }
}

/// The text of a JSON string literal's contents, character by character.
pub open spec fn json_escaped(s: Seq<char>) -> Seq<char>
    decreases s.len(),
{
    if s.len() == 0 {
        Seq::empty()
    } else {
        json_escaped(s.drop_last()) + escaped_char(s.last())
    }
}

/// Escapes a text for use inside a JSON string literal.
pub fn escape_json(s: &str) -> (r: String)
    ensures
        r@ == json_escaped(s@),
{
    let n = s.unicode_len();
    let mut out = String::new();
    let mut i: usize = 0;
    while i < n
        invariant
            i <= n,
            n == s@.len(),
            out@ == json_escaped(s@.take(i as int)),
        decreases n - i,
    {
        let c = s.get_char(i);
        if c == '"' {
            out.append("\\\"");
        } else if c == '\\' {
            out.append("\\\\");
        } else if c == '\n' {
            out.append("\\n");
        } else if c == '\r' {
            out.append("\\r");
        } else if c == '\t' {
            out.append("\\t");
        } else if (c as u32) < 32 {
            let code = c as u32;
            out.append("\\u00");
            out.append(hex_digit_str((code / 16) as u8));
            out.append(hex_digit_str((code % 16) as u8));
        } else {
            let piece = s.substring_char(i, i + 1);
            proof {
                assert(s@.subrange(i as int, i as int + 1) =~= seq![s@[i as int]]);
            }
            out.append(piece);
        }
        proof {
            assert(s@.take(i as int + 1).drop_last() =~= s@.take(i as int));
            assert(s@.take(i as int + 1).last() == s@[i as int]);
        }
        i += 1;
    }
    proof {
        assert(s@.take(n as int) =~= s@);
    }
    out
}

/// The body of the login request for a username and a password.
pub open spec fn login_body_text(username: Seq<char>, password: Seq<char>) -> Seq<char> {
    "{\"username\":\""@ + json_escaped(username) + "\",\"password\":\""@ + json_escaped(password)
        + "\"}"@
}

/// The credentials sent to the login endpoint.
#[derive(Debug, Clone, PartialEq, Eq)]
pub struct LoginRequest {
    pub username: String,
    pub password: String,
}

impl LoginRequest {
    /// Renders the request as the JSON body of the login call.
    pub fn to_json(&self) -> (r: String)
        ensures
            r@ == login_body_text(self.username@, self.password@),
    {
        let mut out = String::from_str("{\"username\":\"");
        let u = escape_json(self.username.as_str());
        out.append(u.as_str());
        out.append("\",\"password\":\"");
        let p = escape_json(self.password.as_str());
        out.append(p.as_str());
        out.append("\"}");
        out
    }
}

} // verus!
