use vrcapi_proxy::auth::{auth_type, basic_credentials, basic_header, token_from_cookie};
use vrcapi_proxy::connection::{
    classify_event, classify_text, EventKind, Next, Reconnect, StreamEnd,
    TextMessage, Watchdog,
};
use vrcapi_proxy::cors::CORS;
use vrcapi_proxy::endpoint::{pipeline_url, search_url, to_decimal, Endpoint, FriendRequestMethod};
use vrcapi_proxy::response::{api_error_message, success_body, ApiResponse};

#[test]
fn login_header_is_base64_without_padding() {
    assert_eq!(basic_credentials("user", "pass"), "Basic dXNlcjpwYXNz");
    assert_eq!(basic_credentials("ユーザー", "pw"), "Basic 44Om44O844K244O8OnB3");
    assert_eq!(basic_credentials("", ""), "Basic Og");
}

#[test]
fn basic_credentials_encode_every_tail_length() {
    // "a:" is two bytes, "ab:c" four, "abc:de" six
    assert_eq!(basic_credentials("a", ""), "Basic YTo");
    assert_eq!(basic_credentials("ab", "c"), "Basic YWI6Yw");
    assert_eq!(basic_credentials("abc", "de"), "Basic YWJjOmRl");
    assert_eq!(basic_credentials("é", "+/"), "Basic w6k6Ky8");
}

#[test]
fn token_from_set_cookie() {
    assert_eq!(
        token_from_cookie("auth=authcookie_abc; Max-Age=7776000; Path=/").as_deref(),
        Some("auth=authcookie_abc")
    );
    assert_eq!(token_from_cookie("auth=x=y; Path=/").as_deref(), Some("auth=x"));
    assert_eq!(token_from_cookie("noequals; a=b"), None);
}

#[test]
fn second_factor_choice() {
    let v = |xs: &[&str]| xs.iter().map(|s| s.to_string()).collect::<Vec<String>>();
    assert_eq!(auth_type(&v(&["emailOtp"])), "emailotp");
    assert_eq!(auth_type(&v(&["otp", "totp", "emailOtp"])), "totp");
    assert_eq!(auth_type(&v(&["otp"])), "otp");
    assert_eq!(auth_type(&v(&[])), "otp");
}

#[test]
fn stream_text_messages() {
    assert_eq!(classify_text("{\"type\":\"friend-online\"}"), TextMessage::Event);
    assert_eq!(classify_text("{\"err\":\"authToken doesn't correspond\"}"), TextMessage::TokenError);
    assert_eq!(classify_text("{\"err\":\"other\"}"), TextMessage::OtherError);
    assert_eq!(classify_text(""), TextMessage::Event);
}

#[test]
fn stream_event_kinds() {
    assert_eq!(classify_event("friend-online"), EventKind::FriendLocation);
    assert_eq!(classify_event("friend-location"), EventKind::FriendLocation);
    assert_eq!(classify_event("friend-active"), EventKind::FriendActive);
    assert_eq!(classify_event("friend-add"), EventKind::FriendAdd);
    assert_eq!(classify_event("friend-delete"), EventKind::FriendDelete);
    assert_eq!(classify_event("friend-offline"), EventKind::FriendOffline);
    assert_eq!(classify_event("user-location"), EventKind::UserLocation);
    assert_eq!(classify_event("notification"), EventKind::Other);
}

#[test]
fn twenty_io_errors_stop_the_client() {
    let mut p = Reconnect::new();
    assert_eq!(p.on_end(StreamEnd::Io), Next::Reconnect);
    for _ in 2..20 {
        assert_eq!(p.on_end(StreamEnd::Io), Next::ReconnectAfterDelay);
    }
    assert_eq!(p.on_end(StreamEnd::Io), Next::Stop);
}

#[test]
fn disconnect_resets_the_count() {
    let mut p = Reconnect::new();
    for _ in 0..10 {
        p.on_end(StreamEnd::Io);
    }
    assert_eq!(p.on_end(StreamEnd::Disconnected), Next::Reconnect);
    assert_eq!(p.on_end(StreamEnd::Io), Next::Reconnect);
    assert_eq!(p.on_end(StreamEnd::Token), Next::Stop);
    let mut p = Reconnect::new();
    assert_eq!(p.on_end(StreamEnd::Unknown), Next::Stop);
}

#[test]
fn quiet_minute_times_out() {
    let mut w = Watchdog::new();
    assert!(w.on_tick());
    w.on_ping();
    assert!(!w.on_tick());
    assert!(w.on_tick());
}

#[test]
fn endpoint_addresses() {
    assert_eq!(Endpoint::AuthUser.url(), "https://api.vrchat.cloud/api/1/auth/user");
    assert_eq!(
        Endpoint::User { id: "usr_1".to_string() }.url(),
        "https://api.vrchat.cloud/api/1/users/usr_1"
    );
    assert_eq!(
        Endpoint::SearchUsers { username: "a b/ü".to_string(), n: Some(0) }.url(),
        "https://api.vrchat.cloud/api/1/users?search=a%20b%2F%C3%BC&n=100"
    );
    assert_eq!(
        Endpoint::SearchUsers { username: "abc".to_string(), n: Some(7) }.url(),
        "https://api.vrchat.cloud/api/1/users?search=abc&n=7"
    );
    assert_eq!(
        Endpoint::FriendsPage { offline: true, offset: 150 }.url(),
        "https://api.vrchat.cloud/api/1/auth/user/friends?offline=true&n=50&offset=150"
    );
    assert_eq!(
        Endpoint::FriendRequest { user_id: "usr_2".to_string() }.url(),
        "https://api.vrchat.cloud/api/1/user/usr_2/friendRequest"
    );
    assert_eq!(
        Endpoint::TwoFactorVerify { kind: "totp".to_string() }.url(),
        "https://api.vrchat.cloud/api/1/auth/twofactorauth/totp/verify"
    );
    assert_eq!(
        Endpoint::InviteMyself { instance_id: "wrld_1:123".to_string() }.url(),
        "https://api.vrchat.cloud/api/1/invite/myself/to/wrld_1:123"
    );
    assert_eq!(pipeline_url("authToken=t"), "wss://pipeline.vrchat.cloud/?authToken=t");
    assert_eq!(FriendRequestMethod::Request.http_method(), "POST");
    assert_eq!(FriendRequestMethod::Delete.http_method(), "DELETE");
}

#[test]
fn decimal_writing() {
    assert_eq!(to_decimal(0), "0");
    assert_eq!(to_decimal(9), "9");
    assert_eq!(to_decimal(10), "10");
    assert_eq!(to_decimal(65535), "65535");
    assert_eq!(to_decimal(u64::MAX), u64::MAX.to_string());
}

#[test]
fn replies() {
    let r: ApiResponse<u8> = ApiResponse::from_result(Err("bad token".to_string()));
    assert_eq!(r.status(), 500);
    match r {
        ApiResponse::Error(body) => assert_eq!(body, "{\"Error\":\"bad token\"}"),
        ApiResponse::Success(_) => panic!("expected an error"),
    }
    let r: ApiResponse<u8> = ApiResponse::from_result(Ok(7));
    assert_eq!(r.status(), 200);
    assert!(matches!(r, ApiResponse::Success(7)));
    assert!(matches!(ApiResponse::from_text("hi"), ApiResponse::Success(s) if s == "hi"));
    assert_eq!(success_body("[1,2]"), "{\"Success\":[1,2]}");
    assert_eq!(api_error_message("\"Missing Credentials\""), "Missing Credentials");
}

#[test]
fn cors_headers() {
    let c = CORS;
    assert_eq!(c.name(), "Add CORS headers to responses");
    let r = c.on_response(true, "http://localhost:3000");
    assert_eq!(r.status, Some(204));
    let hs: Vec<(String, String)> = r.headers.into_iter().map(|h| (h.name, h.value)).collect();
    assert_eq!(
        hs,
        vec![
            ("Access-Control-Allow-Methods".to_string(), "POST, PATCH, GET, DELETE".to_string()),
            ("Access-Control-Allow-Headers".to_string(), "*".to_string()),
            ("Access-Control-Allow-Origin".to_string(), "http://localhost:3000".to_string()),
            ("Access-Control-Allow-Credentials".to_string(), "true".to_string()),
        ]
    );
    let r = c.on_response(false, "o");
    assert_eq!(r.status, None);
    assert_eq!(r.headers.len(), 2);
    assert_eq!(r.headers[0].value, "o");
}

#[test]
fn header_and_search_from_encoded_parts() {
    assert_eq!(basic_header("dXNlcjpwYXNz"), "Basic dXNlcjpwYXNz");
    assert_eq!(
        search_url("a%20b", Some(5)),
        "https://api.vrchat.cloud/api/1/users?search=a%20b&n=5"
    );
    assert_eq!(search_url("", None), "https://api.vrchat.cloud/api/1/users?search=&n=100");
}
