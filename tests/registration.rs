use betterschool_sdk::payload::{encode_registration, registration_body};
use betterschool_sdk::structure::AddUserResponse;

#[test]
fn registration_payload_uses_the_service_names() {
    let body = encode_registration("Bob Kåre", "Kålmann", "245A", "1");
    assert_eq!(body, r#"{"class":"245A","pass":"Kålmann","schoolID":"1","username":"Bob Kåre"}"#);
}

#[test]
fn registration_payload_escapes_values() {
    let body = encode_registration("a\"b", "", "x\\y", "\n");
    assert_eq!(body, r#"{"class":"x\\y","pass":"","schoolID":"\n","username":"a\"b"}"#);
}

#[test]
fn registration_body_assembles_literals() {
    assert_eq!(registration_body("\"u\"", "\"p\"", "\"c\"", "\"s\""), r#"{"class":"c","pass":"p","schoolID":"s","username":"u"}"#);
}

#[test]
fn repeated_registrations_are_built_alike() {
    let a = encode_registration("u", "p", "c", "1");
    let b = encode_registration("u", "p", "c", "1");
    assert_eq!(a, b);
    let first = AddUserResponse::new(200, "ok".to_string());
    let second = AddUserResponse::new(200, "ok".to_string());
    assert_eq!(first.code, 200);
    assert_eq!(second.code, 200);
}

#[test]
fn rejected_credentials_are_a_plain_result() {
    let res = AddUserResponse::new(401, "incorrect credentials".to_string());
    assert_eq!(res.code, 401);
    assert_eq!(res.response, "incorrect credentials");
}

#[test]
fn registration_payload_writes_control_characters_in_hex() {
    let body = encode_registration("\u{1}", "\u{1f}", "\t\r\u{8}\u{c}", "\u{7f}é");
    assert_eq!(
        body,
        "{\"class\":\"\\t\\r\\b\\f\",\"pass\":\"\\u001f\",\"schoolID\":\"\u{7f}é\",\"username\":\"\\u0001\"}"
    );
}
