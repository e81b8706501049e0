use vstd::prelude::*;

use crate::text::{is_text, replace_char, with_char_replaced};

verus! {

/// The settings in `data.json`: where to listen, the origin allowed by CORS,
/// the key that clients authenticate with, and the VRChat token.
pub struct Config {
    pub listen: String,
    pub cors: String,
    pub auth: String,
    pub token: String,
}

/// What to do at start-up, given what could be read from `data.json`.
pub enum Startup {
    /// The settings are usable.
    Ready,
    /// The settings hold no authentication key; the proxy stops with the
    /// message of `EMPTY_AUTH`.
    EmptyAuth,
    /// There were no settings: these defaults are written, and the proxy
    /// stops and asks to fill them in.
    CreateDefault(Config),
}

/// The message given where the settings hold no authentication key.
pub const EMPTY_AUTH: &'static str = "認証IDが空です。入力して再度起動してください。";

/// The message given where a client's key is wrong.
pub const INVALID_AUTH: &'static str = "サーバー側の初回fetchに失敗しているか、トークンが無効です。";

/// The message given where friends are asked for while the stream is down.
pub const NOT_CONNECTED: &'static str = "WebSocketに接続されていません。";

/// The settings written on the first start.
pub fn default_config() -> (r: Config)
    ensures
        r.listen@ == "0.0.0.0:8000"@,
        r.cors@ == "http://localhost:3000"@,
        r.auth@.len() == 0,
        r.token@.len() == 0,
{
    Config {
        listen: String::from_str("0.0.0.0:8000"),
        cors: String::from_str("http://localhost:3000"),
        auth: String::new(),
        token: String::new(),
    }
}

/// Decides the start-up from what `data.json` gave (`None` where it could
/// not be read): settings with a key are ready, settings without one are
/// refused, and missing settings are created with defaults.
pub fn startup(read: Option<Config>) -> (r: Startup)
    ensures
        match read {
            Some(c) => if c.auth@.len() == 0 {
                r is EmptyAuth
            } else {
                r is Ready
            },
            None => r matches Startup::CreateDefault(d) && d.listen@ == "0.0.0.0:8000"@ && d.cors@
                == "http://localhost:3000"@ && d.auth@.len() == 0 && d.token@.len() == 0,
        },
{
    match read {
        Some(c) => if c.auth.as_str().is_empty() {
            Startup::EmptyAuth
        } else {
            Startup::Ready
        },
        None => Startup::CreateDefault(default_config()),
    }
}

impl Config {
    /// The same settings with the token replaced, as a verified two-factor
    /// code stores it.
    pub fn with_token(self, token: &str) -> (r: Config)
        ensures
            r.listen == self.listen,
            r.cors == self.cors,
            r.auth == self.auth,
            r.token@ == token@,
    {
        Config { listen: self.listen, cors: self.cors, auth: self.auth, token: String::from_str(token) }
    }
}

/// A client's key did not match.
#[derive(Debug, PartialEq, Eq, Structural)]
pub enum AccessError {
    /// The key is wrong.
    InvalidAuth,
    /// The friend lists are not being kept: the stream is down.
    NotConnected,
}

impl AccessError {
    /// The message sent back for this error.
    pub fn message(&self) -> (r: &'static str)
        ensures
            r@ == match self {
                AccessError::InvalidAuth => INVALID_AUTH@,
                AccessError::NotConnected => NOT_CONNECTED@,
            },
    {
        match self {
            AccessError::InvalidAuth => INVALID_AUTH,
            AccessError::NotConnected => NOT_CONNECTED,
        }
    }
}

/// Admits a client whose key is the configured one.
pub fn validate(req_auth: &str, auth: &str) -> (r: Result<(), AccessError>)
    ensures
        r is Ok <==> req_auth@ == auth@,
        r is Err ==> r == Err::<(), AccessError>(AccessError::InvalidAuth),
{
    if is_text(req_auth, auth) {
        Ok(())
    } else {
        Err(AccessError::InvalidAuth)
    }
}

/// Admits a request for the friend lists: the key must be right, and the
/// stream that keeps the lists must be running.
pub fn validate_friends(req_auth: &str, auth: &str, connected: bool) -> (r: Result<(), AccessError>)
    ensures
        r == if req_auth@ != auth@ {
            Err::<(), AccessError>(AccessError::InvalidAuth)
        } else if !connected {
            Err(AccessError::NotConnected)
        } else {
            Ok(())
        },
{
    validate(req_auth, auth)?;
    if !connected {
        return Err(AccessError::NotConnected);
    }
    Ok(())
}

/// Admits a WebSocket client that gives the key as `auth` or as `authToken`.
pub fn ws_authorized(auth: &Option<String>, auth_token: &Option<String>, key: &str) -> (r: bool)
    ensures
        r == ((auth is Some && auth->0@ == key@) || (auth_token is Some && auth_token->0@ == key@)),
{
    let first = match auth {
        Some(a) => is_text(a.as_str(), key),
        None => false,
    };
    let second = match auth_token {
        Some(a) => is_text(a.as_str(), key),
        None => false,
    };
    first || second
}

/// The address of the database in the data directory `data_dir`, with
/// backslashes turned into slashes.
pub fn database_url(data_dir: &str) -> (r: String)
    ensures
        r@ == "sqlite://"@ + with_char_replaced(data_dir@, '\\', "/"@) + "/db.sqlite"@,
{
    let dir = replace_char(data_dir, '\\', "/");
    String::from_str("sqlite://").concat(dir.as_str()).concat("/db.sqlite")
}

} // verus!
