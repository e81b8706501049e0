use vrcapi_proxy::combinator::and_then2;
use vrcapi_proxy::request::{
    clamp_result_count, parse_email_otp, parse_two_factor, parse_user_query, RequestError,
    UserTarget,
};
use vrcapi_proxy::text::{contains_text, remove_char, replace_char, split, split_once, starts_with};

#[test]
fn split_keeps_empty_pieces() {
    assert_eq!(split("a::b:", ':'), vec!["a", "", "b", ""]);
    assert_eq!(split("", ':'), vec![""]);
    assert_eq!(split("abc", ':'), vec!["abc"]);
    assert_eq!(split("\u{FF1A}:é", ':'), vec!["\u{FF1A}", "é"]);
}

#[test]
fn split_once_at_first_separator() {
    assert_eq!(split_once("a:b:c", ':'), Some(("a".to_string(), "b:c".to_string())));
    assert_eq!(split_once(":x", ':'), Some((String::new(), "x".to_string())));
    assert_eq!(split_once("abc", ':'), None);
}

#[test]
fn prefixes_and_infixes() {
    assert!(starts_with("{\"err\":1}", "{\"err"));
    assert!(!starts_with("{\"er", "{\"err"));
    assert!(contains_text("xx authToken yy", "authToken"));
    assert!(!contains_text("auth", "authToken"));
    assert!(contains_text("abc", ""));
}

#[test]
fn removing_and_replacing_characters() {
    assert_eq!(remove_char("say \"hi\"", '"'), "say hi");
    assert_eq!(remove_char("", '"'), "");
    assert_eq!(replace_char("C:\\Users\\me", '\\', "/"), "C:/Users/me");
    assert_eq!(replace_char("\\\\", '\\', "/"), "//");
}

#[test]
fn two_factor_request() {
    let t = parse_two_factor("key:auth=tok:totp:123456").unwrap();
    assert_eq!(t.auth, "key");
    assert_eq!(t.token, "auth=tok");
    assert_eq!(t.two_fa_type, "totp");
    assert_eq!(t.two_fa_code, "123456");
    let t = parse_two_factor("a:b:c:d:e").unwrap();
    assert_eq!(t.two_fa_code, "d");
    assert_eq!(parse_two_factor("a:b:c").err(), Some(RequestError::InvalidRequest));
    assert_eq!(RequestError::InvalidRequest.message(), "リクエストが不正です。");
}

#[test]
fn user_query_forms() {
    let q = parse_user_query("key");
    assert_eq!(q.auth, "key");
    assert!(matches!(q.target, UserTarget::Myself));
    let q = parse_user_query("key:usr_1");
    match q.target {
        UserTarget::Other { id, force } => {
            assert_eq!(id, "usr_1");
            assert!(!force);
        }
        UserTarget::Myself => panic!("expected another user"),
    }
    let q = parse_user_query("key:usr_1:true");
    assert!(matches!(q.target, UserTarget::Other { force: true, .. }));
    let q = parse_user_query("key:usr_1:false");
    assert!(matches!(q.target, UserTarget::Other { force: false, .. }));
    let q = parse_user_query("");
    assert_eq!(q.auth, "");
    assert!(matches!(q.target, UserTarget::Myself));
}

#[test]
fn email_otp_request() {
    let e = parse_email_otp("auth=tok:123456").ok().unwrap();
    assert_eq!(e.token, "auth=tok");
    assert_eq!(e.code, "123456");
    assert_eq!(e.auth, None);
    let e = parse_email_otp("auth=tok:123456;key").ok().unwrap();
    assert_eq!(e.code, "123456");
    assert_eq!(e.auth.as_deref(), Some("key"));
    assert!(parse_email_otp("nocolon;key").is_err());
    assert!(parse_email_otp("nocolon").is_err());
}

#[test]
fn result_count_is_clamped() {
    assert_eq!(clamp_result_count(None), 100);
    assert_eq!(clamp_result_count(Some(0)), 100);
    assert_eq!(clamp_result_count(Some(1)), 1);
    assert_eq!(clamp_result_count(Some(100)), 100);
    assert_eq!(clamp_result_count(Some(101)), 100);
    assert_eq!(clamp_result_count(Some(37)), 37);
}

#[derive(Debug, PartialEq)]
struct Wide(u32);

impl From<u8> for Wide {
    fn from(v: u8) -> Wide {
        Wide(v as u32 + 1000)
    }
}

#[test]
fn and_then2_converts_errors() {
    let ok: Result<u8, Wide> = Ok(3);
    assert_eq!(and_then2(ok, |x| Ok::<u8, u8>(x * 2)), Ok(6));
    let ok: Result<u8, Wide> = Ok(3);
    assert_eq!(and_then2(ok, |x| Err::<u8, u8>(x)), Err(Wide(1003)));
    let err: Result<u8, Wide> = Err(Wide(1));
    assert_eq!(and_then2(err, |x| Ok::<u8, u8>(x)), Err(Wide(1)));
}
