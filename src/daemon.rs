use crate::chall::{valid_token, valid_token_spec};
use crate::http_responses::{BAD_REQUEST, NOT_FOUND, REDIRECT};
use crate::paths::{join, join_spec};
use vstd::prelude::*;
use vstd::string::StringSliceAdditionalSpecFns;

verus! {

/// The path below which challenge proofs are served.
pub const CHALLENGE_PREFIX: &'static str = "/.well-known/acme-challenge/";

/// Length of `CHALLENGE_PREFIX`.
pub const CHALLENGE_PREFIX_LEN: usize = 28;

/// A response of the daemon.
pub struct Reply {
    pub status: u16,
    /// The `Location` header, for a redirect.
    pub location: Option<String>,
    pub body: Vec<u8>,
}

/// Where a request goes.
#[derive(Debug, PartialEq, Eq)]
pub enum Route {
    /// A challenge proof, with the last path segment as token.
    Challenge(String),
    /// Any other `GET` is redirected to HTTPS.
    Redirect,
    /// Other methods are not served.
    NotFound,
}

/// Whether `s` holds no `/`.
pub open spec fn one_segment(s: Seq<char>) -> bool {
    forall|i: int| 0 <= i < s.len() ==> s[i] != '/'
}

/// The token of a request path of the form
/// `/.well-known/acme-challenge/<token>`, with a non-empty token of one path
/// segment.
pub open spec fn challenge_token(path: Seq<char>) -> Option<Seq<char>> {
    let p = CHALLENGE_PREFIX@;
    if path.len() > p.len() && path.subrange(0, p.len() as int) == p && one_segment(
        path.subrange(p.len() as int, path.len() as int),
    ) {
        Some(path.subrange(p.len() as int, path.len() as int))
    } else {
        None
    }
}

/// Routes a request by its method (whether it is `GET`) and its path
/// (without the query).
pub fn route(is_get: bool, path: &str) -> (r: Route)
    ensures
        !is_get ==> (r is NotFound),
        is_get ==> (match challenge_token(path@) {
            Some(t) => r matches Route::Challenge(tok) && tok@ == t,
            None => r is Redirect,
        }),
{
    if !is_get {
        return Route::NotFound;
    }
    proof {
        reveal_strlit("/.well-known/acme-challenge/");
    }
    let n = path.unicode_len();
    if n <= CHALLENGE_PREFIX_LEN {
        return Route::Redirect;
    }
    let head = path.substring_char(0, CHALLENGE_PREFIX_LEN);
    if !crate::config::str_eq(head, CHALLENGE_PREFIX) {
        return Route::Redirect;
    }
    let token = path.substring_char(CHALLENGE_PREFIX_LEN, n);
    let m = token.unicode_len();
    let mut i: usize = 0;
    while i < m
        invariant
            i <= m,
            m == token@.len(),
            n == path@.len(),
            n > 28,
            is_get,
            token@ == path@.subrange(28, path@.len() as int),
            forall|j: int| 0 <= j < i ==> token@[j] != '/',
        decreases m - i,
    {
        if token.get_char(i) == '/' {
            assert(!one_segment(path@.subrange(28, path@.len() as int))) by {
                assert(token@[i as int] == '/');
            }
            proof {
                reveal_strlit("/.well-known/acme-challenge/");
            }
            return Route::Redirect;
        }
        i += 1;
    }
    Route::Challenge(String::from_str(token))
}

/// The file of the proof for `token`, relative to the challenge directory,
/// which is the daemon's working directory; none for an unsafe token.
pub fn challenge_file(token: &str) -> (r: Option<String>)
    ensures
        valid_token_spec(token@) ==> (r matches Some(p) && p@ == join_spec("challs"@, token@)),
        !valid_token_spec(token@) ==> r is None,
{
    if valid_token(token) {
        Some(join("challs", token))
    } else {
        None
    }
}

/// A reply with a fixed page as body.
fn page(status: u16, location: Option<String>, body: &str) -> (r: Reply)
    ensures
        r.status == status,
        r.location == location,
        r.body@ == body.spec_bytes(),
{
    Reply { status, location, body: body.as_bytes_vec() }
}

/// The reply to a request for the proof of `token`: 400 for an unsafe token,
/// else 200 with the proof's bytes when the file was read, 404 when not.
pub fn acme_reply(token: &str, contents: Option<Vec<u8>>) -> (r: Reply)
    ensures
        !valid_token_spec(token@) ==> (r.status == 400 && r.body@ == BAD_REQUEST.spec_bytes()),
        valid_token_spec(token@) && contents is Some ==> (r.status == 200 && r.body@
            == contents->Some_0@),
        valid_token_spec(token@) && contents is None ==> (r.status == 404 && r.body@
            == NOT_FOUND.spec_bytes()),
        (r.location is None),
{
    if !valid_token(token) {
        return page(400, None, BAD_REQUEST);
    }
    match contents {
        Some(p) => Reply { status: 200, location: None, body: p },
        None => page(404, None, NOT_FOUND),
    }
}

/// Whether `s` holds a carriage return or a line feed.
pub open spec fn has_line_break(s: Seq<char>) -> bool {
    exists|i: int| 0 <= i < s.len() && (s[i] == '\n' || s[i] == '\r')
}

/// The address a request is redirected to.
pub open spec fn redirect_target(host: Seq<char>, uri: Seq<char>) -> Seq<char> {
    "https://"@ + host + uri
}

/// The reply to any other request: 400 without a readable `Host` header or
/// when the target would hold a line break, else a permanent redirect to the
/// same path and query over HTTPS.
pub fn redirect_reply(host: Option<&str>, uri: &str) -> (r: Reply)
    ensures
        match host {
            None => r.status == 400 && r.location is None && r.body@ == BAD_REQUEST.spec_bytes(),
            Some(h) => if has_line_break(redirect_target(h@, uri@)) {
                r.status == 400 && r.location is None && r.body@ == BAD_REQUEST.spec_bytes()
            } else {
                r.status == 301 && r.body@ == REDIRECT.spec_bytes() && (r.location matches Some(l)
                    && l@ == redirect_target(h@, uri@))
            },
        },
{
    let h = match host {
        None => return page(400, None, BAD_REQUEST),
        Some(h) => h,
    };
    let url = String::from_str("https://").concat(h).concat(uri);
    let s = url.as_str();
    let n = s.unicode_len();
    let mut i: usize = 0;
    while i < n
        invariant
            i <= n,
            n == s@.len(),
            s@ == redirect_target(h@, uri@),
            host == Some(h),
            forall|j: int| 0 <= j < i ==> s@[j] != '\n' && s@[j] != '\r',
        decreases n - i,
    {
        let c = s.get_char(i);
        if c == '\n' || c == '\r' {
            assert(has_line_break(redirect_target(h@, uri@))) by {
                assert(s@[i as int] == c);
            }
            return page(400, None, BAD_REQUEST);
        }
        i += 1;
    }
    page(301, Some(url), REDIRECT)
}

} // verus!
