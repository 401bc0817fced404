//! Credentials for talking to a sync server, and the login exchange that
//! obtains them.

use vstd::prelude::*;
use vstd::string::*;
use crate::error::AnkiError;

verus! {

/// A parsed URL.
#[verifier::external_type_specification]
#[verifier::external_body]
pub struct ExUrl(url::Url);

/// The reason a URL was not accepted.
#[verifier::external_type_specification]
#[verifier::external_body]
pub struct ExUrlParseError(url::ParseError);

/// What parsing `base` with `url::Url::try_from` and then joining `input`
/// to the result with `Url::join` gives: `Some` of the joined URL, or `None`
/// where either step fails.
pub uninterp spec fn url_joined(base: Seq<char>, input: Seq<char>) -> Option<url::Url>;

/// Calls `url::Url::try_from` on `base` and, when that succeeds, `Url::join`
/// with `input` on the parsed URL. Both steps are functions of their texts
/// alone, so the contract claims that the outcome is named by the two
/// texts: `url_joined`. Which of the two steps failed, and with which
/// error, is left unsaid.
#[verifier::external_body]
fn url_parse_and_join(base: &str, input: &str) -> (r: Result<url::Url, url::ParseError>)
    ensures
        r is Ok <==> url_joined(base@, input@) is Some,
        r matches Ok(u) ==> url_joined(base@, input@) == Some(u),
{
    match url::Url::try_from(base) {
        Ok(url) => url.join(input),
        Err(e) => Err(e),
    }
}

/// Whether the server address `v` is usable: it parses as a URL, and
/// joining `./` to it succeeds.
pub open spec fn endpoint_usable(v: Seq<char>) -> bool {
    url_joined(v, "./"@) is Some
}

/// Credentials for a sync server: the host key, the server (the default
/// server when `None`), and an optional I/O timeout.
pub struct SyncAuth {
    pub hkey: String,
    pub endpoint: Option<url::Url>,
    pub io_timeout_secs: Option<u32>,
}

impl Default for SyncAuth {
    fn default() -> (r: SyncAuth)
        ensures
            r.hkey@ == Seq::<char>::empty(),
            r.endpoint is None,
            r.io_timeout_secs is None,
    {
        SyncAuth { hkey: String::new(), endpoint: None, io_timeout_secs: None }
    }
}

/// Credentials as the caller hands them over, with the server as text.
pub struct ProtoSyncAuth {
    pub hkey: String,
    pub endpoint: Option<String>,
    pub io_timeout_secs: Option<u32>,
}

impl Default for ProtoSyncAuth {
    fn default() -> (r: ProtoSyncAuth)
        ensures
            r.hkey@ == Seq::<char>::empty(),
            r.endpoint is None,
            r.io_timeout_secs is None,
    {
        ProtoSyncAuth { hkey: String::new(), endpoint: None, io_timeout_secs: None }
    }
}

/// The message given when the sync server's address is not usable.
pub open spec fn invalid_server_message() -> Seq<char> {
    "Invalid sync server specified. Please check the preferences."@
}

/// Whether `e` is the error for an unusable sync server address.
pub open spec fn is_invalid_server_error(e: AnkiError) -> bool {
    e matches AnkiError::InvalidInput { message } && message@ == invalid_server_message()
}

fn invalid_server() -> (e: AnkiError)
    ensures
        is_invalid_server_error(e),
{
    AnkiError::invalid_input(String::from_str(
        "Invalid sync server specified. Please check the preferences.",
    ))
}

impl SyncAuth {
    /// Credentials from the caller's values and the outcome of resolving
    /// the server's address: an address that could not be resolved makes
    /// the credentials invalid.
    pub fn from_parts(
        hkey: String,
        endpoint: Option<Result<url::Url, url::ParseError>>,
        io_timeout_secs: Option<u32>,
    ) -> (r: Result<SyncAuth, AnkiError>)
        ensures
            match endpoint {
                None => r matches Ok(a) && a.hkey == hkey && a.endpoint is None
                    && a.io_timeout_secs == io_timeout_secs,
                Some(Ok(u)) => r matches Ok(a) && a.hkey == hkey && a.endpoint == Some(u)
                    && a.io_timeout_secs == io_timeout_secs,
                Some(Err(_)) => r matches Err(e) && is_invalid_server_error(e),
            },
    {
        let endpoint = match endpoint {
            None => None,
            Some(Ok(u)) => Some(u),
            Some(Err(_)) => {
                return Err(invalid_server());
            },
        };
        Ok(SyncAuth { hkey, endpoint, io_timeout_secs })
    }

    /// Credentials from the caller's values. The server's address is
    /// parsed and then joined with `./`, which also rejects incomplete
    /// addresses such as `computer.local:8000`; an address that fails
    /// either step gives an `InvalidInput` error.
    pub fn try_from(value: ProtoSyncAuth) -> (r: Result<SyncAuth, AnkiError>)
        ensures
            value.endpoint is None ==> (r matches Ok(a) && a.hkey == value.hkey
                && a.endpoint is None && a.io_timeout_secs == value.io_timeout_secs),
            r matches Ok(a) ==> a.hkey == value.hkey && a.io_timeout_secs
                == value.io_timeout_secs && (a.endpoint is Some <==> value.endpoint is Some),
            r matches Err(e) ==> value.endpoint is Some && is_invalid_server_error(e),
            value.endpoint matches Some(v) ==> (r is Ok <==> endpoint_usable(v@)),
            value.endpoint matches Some(v) ==> (r matches Ok(a) ==> a.endpoint == url_joined(
                v@,
                "./"@,
            )),
    {
        match &value.endpoint {
            None => SyncAuth::from_parts(value.hkey, None, value.io_timeout_secs),
            Some(v) => {
                let joined = url_parse_and_join(v.as_str(), "./");
                SyncAuth::from_parts(value.hkey, Some(joined), value.io_timeout_secs)
            },
        }
    }
}

/// The request that exchanges a username and password for a host key.
pub struct HostKeyRequest {
    pub username: String,
    pub password: String,
}

/// The server's answer to a login.
pub struct HostKeyResponse {
    pub key: String,
}

/// The credentials used to log in: the given server (or the default one),
/// no host key yet. Fails like `SyncAuth::try_from` on a bad address.
pub fn sync_login_auth(endpoint: Option<String>) -> (r: Result<SyncAuth, AnkiError>)
    ensures
        endpoint is None ==> (r matches Ok(a) && a.hkey@ == Seq::<char>::empty()
            && a.endpoint is None && a.io_timeout_secs is None),
        r matches Ok(a) ==> a.hkey@ == Seq::<char>::empty() && a.io_timeout_secs is None && (
        a.endpoint is Some <==> endpoint is Some),
        r matches Err(e) ==> endpoint is Some && is_invalid_server_error(e),
        endpoint matches Some(v) ==> (r is Ok <==> endpoint_usable(v@)),
        endpoint matches Some(v) ==> (r matches Ok(a) ==> a.endpoint == url_joined(v@, "./"@)),
{
    let mut value = ProtoSyncAuth::default();
    value.endpoint = endpoint;
    SyncAuth::try_from(value)
}

/// The login request for `username` and `password`.
pub fn host_key_request(username: String, password: String) -> (r: HostKeyRequest)
    ensures
        r.username == username,
        r.password == password,
{
    HostKeyRequest { username, password }
}

/// The credentials a successful login yields: the server's host key, with
/// the default server and no timeout.
pub fn sync_login_finish(resp: HostKeyResponse) -> (r: SyncAuth)
    ensures
        r.hkey == resp.key,
        r.endpoint is None,
        r.io_timeout_secs is None,
{
    SyncAuth { hkey: resp.key, endpoint: None, io_timeout_secs: None }
}

} // verus!
