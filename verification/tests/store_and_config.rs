use vrcapi_proxy::config::{
    database_url, default_config, startup, validate, validate_friends, ws_authorized,
    AccessError, Config, Startup,
};
use vrcapi_proxy::store::{add, check, toggle, update, Data, StoreError};

fn data(auth: &str, token: &str, askme: bool) -> Data {
    Data { auth: auth.to_string(), token: token.to_string(), askme }
}

#[test]
fn toggle_then_check_reads_the_flag() {
    let mut store = vec![data("k1", "t1", false), data("k2", "t2", false)];
    assert_eq!(toggle(&mut store, "k2:true"), Ok(true));
    assert_eq!(check(&store, "k2"), Ok(true));
    assert_eq!(check(&store, "k1"), Ok(false));
    assert_eq!(toggle(&mut store, "k2:yes"), Ok(false));
    assert_eq!(check(&store, "k2"), Ok(false));
}

#[test]
fn toggle_errors() {
    let mut store = vec![data("k1", "t1", false)];
    assert_eq!(toggle(&mut store, "k1"), Err(StoreError::InvalidRequest));
    assert_eq!(toggle(&mut store, "zz:true"), Err(StoreError::InvalidAuth));
    assert_eq!(check(&store, "zz"), Err(StoreError::InvalidAuth));
    assert!(!store[0].askme);
    assert_eq!(StoreError::InvalidAuth.message(), "認証情報が不正です。");
}

#[test]
fn toggle_changes_only_the_first_matching_credential() {
    let mut store = vec![data("k", "t1", false), data("k", "t2", false)];
    assert_eq!(toggle(&mut store, "k:true"), Ok(true));
    assert!(store[0].askme);
    assert!(!store[1].askme);
}

#[test]
fn update_and_add_tokens() {
    let mut store = vec![data("k1", "t1", true)];
    assert_eq!(update(&mut store, "new", "k1"), Ok(()));
    assert_eq!(store[0].token, "new");
    assert!(store[0].askme);
    assert_eq!(update(&mut store, "x", "zz"), Err(StoreError::InvalidAuth));
    add(&mut store, "t9", "k9");
    assert_eq!(store.len(), 2);
    assert_eq!(store[1].auth, "k9");
    assert_eq!(store[1].token, "t9");
    assert!(!store[1].askme);
    assert_eq!(check(&store, "k9"), Ok(false));
    let c = store[1].clone();
    assert_eq!(c.token, "t9");
}

#[test]
fn startup_decisions() {
    let d = default_config();
    assert_eq!(d.listen, "0.0.0.0:8000");
    assert_eq!(d.cors, "http://localhost:3000");
    assert!(d.auth.is_empty() && d.token.is_empty());
    assert!(matches!(startup(Some(default_config())), Startup::EmptyAuth));
    let mut c = default_config();
    c.auth = "key".to_string();
    assert!(matches!(startup(Some(c)), Startup::Ready));
    match startup(None) {
        Startup::CreateDefault(d) => assert_eq!(d.listen, "0.0.0.0:8000"),
        _ => panic!("expected defaults"),
    }
}

#[test]
fn config_with_token() {
    let c = Config {
        listen: "l".to_string(),
        cors: "c".to_string(),
        auth: "a".to_string(),
        token: "old".to_string(),
    };
    let c = c.with_token("auth=new");
    assert_eq!(c.token, "auth=new");
    assert_eq!(c.auth, "a");
    assert_eq!(c.listen, "l");
}

#[test]
fn validation() {
    assert_eq!(validate("key", "key"), Ok(()));
    assert_eq!(validate("kex", "key"), Err(AccessError::InvalidAuth));
    assert_eq!(validate_friends("key", "key", true), Ok(()));
    assert_eq!(validate_friends("key", "key", false), Err(AccessError::NotConnected));
    assert_eq!(validate_friends("x", "key", false), Err(AccessError::InvalidAuth));
    assert_eq!(AccessError::NotConnected.message(), "WebSocketに接続されていません。");
}

#[test]
fn websocket_key_in_either_parameter() {
    let k = Some("key".to_string());
    let w = Some("bad".to_string());
    assert!(ws_authorized(&k, &None, "key"));
    assert!(ws_authorized(&None, &k, "key"));
    assert!(ws_authorized(&w, &k, "key"));
    assert!(!ws_authorized(&w, &w, "key"));
    assert!(!ws_authorized(&None, &None, "key"));
}

#[test]
fn database_address() {
    assert_eq!(database_url("C:\\Users\\me\\vrcapi-proxy"), "sqlite://C:/Users/me/vrcapi-proxy/db.sqlite");
    assert_eq!(database_url("/home/me/vrcapi-proxy"), "sqlite:///home/me/vrcapi-proxy/db.sqlite");
}
