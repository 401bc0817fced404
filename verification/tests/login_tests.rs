use anki::error::AnkiError;
use anki::login::{host_key_request, sync_login_auth, sync_login_finish, HostKeyResponse, ProtoSyncAuth, SyncAuth};

const BAD_SERVER: &str = "Invalid sync server specified. Please check the preferences.";

fn is_bad_server(r: Result<SyncAuth, AnkiError>) -> bool {
    matches!(r, Err(AnkiError::InvalidInput { message }) if message == BAD_SERVER)
}

#[test]
fn auth_without_endpoint_keeps_fields() {
    let auth = SyncAuth::try_from(ProtoSyncAuth {
        hkey: "abc".to_string(),
        endpoint: None,
        io_timeout_secs: Some(30),
    })
    .ok()
    .unwrap();
    assert_eq!(auth.hkey, "abc");
    assert!(auth.endpoint.is_none());
    assert_eq!(auth.io_timeout_secs, Some(30));
}

#[test]
fn auth_endpoint_is_joined() {
    let auth = SyncAuth::try_from(ProtoSyncAuth {
        hkey: "k".to_string(),
        endpoint: Some("https://sync.example.com/sub/file".to_string()),
        io_timeout_secs: None,
    })
    .ok()
    .unwrap();
    assert_eq!(auth.endpoint.unwrap().as_str(), "https://sync.example.com/sub/");
}

#[test]
fn auth_rejects_incomplete_endpoints() {
    for bad in ["computer.local", "computer.local:8000", "", "not a url"] {
        let r = SyncAuth::try_from(ProtoSyncAuth {
            hkey: String::new(),
            endpoint: Some(bad.to_string()),
            io_timeout_secs: None,
        });
        assert!(is_bad_server(r), "{bad}");
    }
}

#[test]
fn login_bookkeeping() {
    let auth = sync_login_auth(None).ok().unwrap();
    assert_eq!(auth.hkey, "");
    assert!(auth.endpoint.is_none() && auth.io_timeout_secs.is_none());
    assert!(is_bad_server(sync_login_auth(Some("computer.local:8000".to_string()))));
    let with_server = sync_login_auth(Some("http://localhost:8080".to_string())).ok().unwrap();
    assert_eq!(with_server.endpoint.unwrap().as_str(), "http://localhost:8080/");
    let req = host_key_request("user".to_string(), "pass".to_string());
    assert_eq!((req.username.as_str(), req.password.as_str()), ("user", "pass"));
    let done = sync_login_finish(HostKeyResponse { key: "secret-key".to_string() });
    assert_eq!(done.hkey, "secret-key");
    assert!(done.endpoint.is_none() && done.io_timeout_secs.is_none());
    let d = SyncAuth::default();
    assert!(d.hkey.is_empty() && d.endpoint.is_none());
}
