use vstd::prelude::*;

use crate::text::{is_text, split, split_on, split_once, split_once_at, texts_of};

verus! {

/// A request body that does not have the expected shape.
#[derive(Debug, PartialEq, Eq, Structural)]
pub enum RequestError {
    InvalidRequest,
}

impl RequestError {
    /// The message sent back for this error.
    pub fn message(&self) -> (r: &'static str)
        ensures
            r@ == "リクエストが不正です。"@,
    {
        "リクエストが不正です。"
    }
}

/// A request to verify a two-factor code: `auth:token:type:code`.
pub struct TwoFactorRequest {
    pub auth: String,
    pub token: String,
    pub two_fa_type: String,
    pub two_fa_code: String,
}

/// Reads `auth:token:type:code`: the first four pieces between colons; what
/// follows a fourth colon is ignored. A request with fewer pieces is refused.
pub fn parse_two_factor(req: &str) -> (r: Result<TwoFactorRequest, RequestError>)
    ensures
        ({
            let p = split_on(req@, ':');
            match r {
                Ok(t) => p.len() >= 4 && t.auth@ == p[0] && t.token@ == p[1] && t.two_fa_type@ == p[2]
                    && t.two_fa_code@ == p[3],
                Err(e) => p.len() < 4 && e == RequestError::InvalidRequest,
            }
        }),
{
    let mut pieces = split(req, ':');
    if pieces.len() < 4 {
        return Err(RequestError::InvalidRequest);
    }
    let ghost p = pieces@;
    proof {
        assert(texts_of(p)[0] == p[0]@);
        assert(texts_of(p)[1] == p[1]@);
        assert(texts_of(p)[2] == p[2]@);
        assert(texts_of(p)[3] == p[3]@);
    }
    pieces.truncate(4);
    let two_fa_code = pieces.pop().unwrap();
    let two_fa_type = pieces.pop().unwrap();
    let token = pieces.pop().unwrap();
    let auth = pieces.pop().unwrap();
    Ok(TwoFactorRequest { auth, token, two_fa_type, two_fa_code })
}

/// Whose profile a `/user` request asks for.
pub enum UserTarget {
    /// The account's own profile.
    Myself,
    /// Another user's; `force` asks to fetch it even where the friend lists
    /// hold it.
    Other { id: String, force: bool },
}

/// A `/user` request: `auth`, `auth:id` or `auth:id:force`.
pub struct UserQuery {
    pub auth: String,
    pub target: UserTarget,
}

/// Reads a `/user` request: the first piece is the credential; a second names
/// the user; a third reading `true` forces a fetch.
pub fn parse_user_query(req: &str) -> (r: UserQuery)
    ensures
        ({
            let p = split_on(req@, ':');
            &&& r.auth@ == p[0]
            &&& match r.target {
                UserTarget::Myself => p.len() == 1,
                UserTarget::Other { id, force } => p.len() >= 2 && id@ == p[1] && force == (p.len()
                    >= 3 && p[2] == "true"@),
            }
        }),
{
    let mut pieces = split(req, ':');
    proof {
        crate::text::lemma_split_nonempty(req@, ':');
    }
    let ghost p = pieces@;
    proof {
        assert(texts_of(p)[0] == p[0]@);
        if p.len() >= 2 {
            assert(texts_of(p)[1] == p[1]@);
        }
        if p.len() >= 3 {
            assert(texts_of(p)[2] == p[2]@);
        }
    }
    let force = pieces.len() >= 3 && is_text(pieces[2].as_str(), "true");
    if pieces.len() == 1 {
        let auth = pieces.pop().unwrap();
        UserQuery { auth, target: UserTarget::Myself }
    } else {
        pieces.truncate(2);
        let id = pieces.pop().unwrap();
        let auth = pieces.pop().unwrap();
        UserQuery { auth, target: UserTarget::Other { id, force } }
    }
}

/// A request to verify a code sent by mail: `token:code`, optionally
/// followed by `;auth` to update the stored credential `auth`.
pub struct EmailOtpRequest {
    pub token: String,
    pub code: String,
    pub auth: Option<String>,
}

/// The part before the first `;` and the credential after it, or the whole
/// request where it holds no `;`.
pub open spec fn email_otp_parts(req: Seq<char>) -> (Seq<char>, Option<Seq<char>>) {
    match split_once_at(req, ';') {
        Some((a, b)) => (a, Some(b)),
        None => (req, None),
    }
}

/// Reads `token:code` or `token:code;auth`; a request whose first part has no
/// colon is refused.
pub fn parse_email_otp(req: &str) -> (r: Result<EmailOtpRequest, RequestError>)
    ensures
        ({
            let (body, auth) = email_otp_parts(req@);
            match r {
                Ok(e) => split_once_at(body, ':') == Some((e.token@, e.code@)) && match e.auth {
                    Some(a) => auth == Some(a@),
                    None => auth is None,
                },
                Err(_) => split_once_at(body, ':') is None,
            }
        }),
{
    let (body, auth) = match split_once(req, ';') {
        Some((a, b)) => (a, Some(b)),
        None => (String::from_str(req), None),
    };
    match split_once(body.as_str(), ':') {
        Some((token, code)) => Ok(EmailOtpRequest { token, code, auth }),
        None => Err(RequestError::InvalidRequest),
    }
}

/// The number of search results asked for when the request names none, or
/// names zero or more than allowed.
pub const MAX_RESULTS: usize = 100;

/// The number of results that a user search asks the API for.
pub open spec fn result_count(n: Option<usize>) -> usize {
    match n {
        Some(n) if n != 0 && n <= MAX_RESULTS => n,
        _ => MAX_RESULTS,
    }
}

/// The number of results that a user search asks the API for: the requested
/// number where it is between 1 and 100, else 100.
pub fn clamp_result_count(n: Option<usize>) -> (r: usize)
    ensures
        r == result_count(n),
        1 <= r <= MAX_RESULTS,
{
    match n {
        Some(n) if n != 0 && n <= MAX_RESULTS => n,
        _ => MAX_RESULTS,
    }
}

} // verus!
