use voice_sessions::auth::{
    extract_access_token, extract_access_token_from_header, extract_user_id_from_vk_query,
    find_parameter, generate_vk_jwt_method, jwt_token_guard, url_signature, verify_vk_identity,
    vk_parameters, AccessTokenQuery, Claims, GetVkJwtTokenRequest, JwtConfig, VkQueryError,
};
use voice_sessions::ident::UserId;

const QUERY: &str = "vk_access_token_settings=&vk_app_id=8040721&vk_are_notifications_enabled=0&vk_is_app_user=1&vk_is_favorite=0&vk_language=ru&vk_platform=desktop_web&vk_ref=other&vk_ts=1641048381&vk_user_id=277790772&sign=r-I95gw8ot4RK0NkhEiORPDhFI3p0NylEbk2CPr2ZS8";
const KEY: &str = "MatyOmcbNc78YsfEzOdB";

fn pairs(items: &[(&str, &str)]) -> Vec<(String, String)> {
    items.iter().map(|(k, v)| (k.to_string(), v.to_string())).collect()
}

fn chars(s: &str) -> Vec<char> {
    s.chars().collect()
}

#[test]
fn extract_vk_uid() {
    let (uid, timestamp) = extract_user_id_from_vk_query(
        "vk_access_token_settings=&vk_app_id=8040721&vk_are_notifications_enabled=0&vk_is_app_user=1&vk_is_favorite=0&vk_language=ru&vk_platform=desktop_web&vk_ref=other&vk_ts=1641048381&vk_user_id=277790772&sign=r-I95gw8ot4RK0NkhEiORPDhFI3p0NylEbk2CPr2ZS8",
        "MatyOmcbNc78YsfEzOdB",
    )
    .unwrap();

    assert_eq!(uid, UserId(277790772));
    assert_eq!(timestamp, 1641048381);
}

#[test]
fn wrong_key_gives_invalid_sign() {
    let r = extract_user_id_from_vk_query(QUERY, "another key");
    assert!(matches!(r, Err(VkQueryError::InvalidSign)));
}

#[test]
fn tampered_parameter_gives_invalid_sign() {
    let tampered = QUERY.replace("vk_user_id=277790772", "vk_user_id=277790773");
    let r = extract_user_id_from_vk_query(&tampered, KEY);
    assert!(matches!(r, Err(VkQueryError::InvalidSign)));
}

#[test]
fn unsigned_parameter_does_not_touch_the_signature() {
    let extended = format!("{}&extra=1", QUERY);
    let (uid, ts) = extract_user_id_from_vk_query(&extended, KEY).unwrap();
    assert_eq!(uid, UserId(277790772));
    assert_eq!(ts, 1641048381);
}

#[test]
fn missing_sign_is_reported_before_anything_is_signed() {
    let r = extract_user_id_from_vk_query("vk_user_id=1&vk_ts=2", KEY);
    assert!(matches!(r, Err(VkQueryError::EmptySign)));
    assert_eq!(r.unwrap_err().message(), "empty sign");
}

#[test]
fn query_that_needs_decoding_is_malformed() {
    let r = extract_user_id_from_vk_query("vk_ref=a%20b&sign=x", KEY);
    match r {
        Err(VkQueryError::Malformed(text)) => assert!(!text.is_empty()),
        other => panic!("unexpected {:?}", other),
    }
}

#[test]
fn identity_errors_in_order() {
    let sig = chars("abc");
    let r = verify_vk_identity(&pairs(&[("vk_ts", "1")]), &sig);
    assert!(matches!(r, Err(VkQueryError::EmptySign)));
    let r = verify_vk_identity(&pairs(&[("sign", "abd"), ("vk_ts", "1")]), &sig);
    assert!(matches!(r, Err(VkQueryError::InvalidSign)));
    let r = verify_vk_identity(&pairs(&[("sign", "abc"), ("vk_ts", "1")]), &sig);
    assert!(matches!(r, Err(VkQueryError::EmptyVkId)));
    let r = verify_vk_identity(&pairs(&[("sign", "abc"), ("vk_ts", "1"), ("vk_user_id", "x1")]), &sig);
    assert!(matches!(r, Err(VkQueryError::InvalidVkId)));
    let r = verify_vk_identity(&pairs(&[("sign", "abc"), ("vk_user_id", "7")]), &sig);
    assert!(matches!(r, Err(VkQueryError::EmptyTimestamp)));
    let r = verify_vk_identity(&pairs(&[("sign", "abc"), ("vk_ts", ""), ("vk_user_id", "7")]), &sig);
    assert!(matches!(r, Err(VkQueryError::InvalidTimestamp)));
    let r = verify_vk_identity(&pairs(&[("sign", "abc"), ("vk_ts", "-5"), ("vk_user_id", "+7")]), &sig);
    assert_eq!(r.unwrap(), (UserId(7), -5));
}

#[test]
fn error_messages() {
    assert_eq!(VkQueryError::InvalidSign.message(), "invalid sign");
    assert_eq!(VkQueryError::EmptyVkId.message(), "empty vk id");
    assert_eq!(VkQueryError::EmptyTimestamp.message(), "empty timestamp");
    assert_eq!(VkQueryError::InvalidVkId.message(), "invalid vk id");
    assert_eq!(VkQueryError::InvalidTimestamp.message(), "invalid timestamp");
    assert_eq!(VkQueryError::Key.message(), "invalid key length");
    assert_eq!(VkQueryError::ExpirationOverflow.message(), "expiration is out of range");
    assert_eq!(VkQueryError::Malformed("m".to_string()).message(), "m");
    assert_eq!(VkQueryError::Unencodable("u".to_string()).message(), "u");
}

#[test]
fn signed_parameters_are_those_with_the_prefix() {
    let all = pairs(&[("sign", "s"), ("vk_a", "1"), ("v", "2"), ("vk_", "3"), ("xvk_b", "4"), ("vk_c", "")]);
    assert_eq!(vk_parameters(&all), pairs(&[("vk_a", "1"), ("vk_", "3"), ("vk_c", "")]));
    assert!(vk_parameters(&pairs(&[])).is_empty());
}

#[test]
fn first_parameter_of_a_name_is_found() {
    let all = pairs(&[("a", "1"), ("b", "2"), ("a", "3")]);
    assert_eq!(find_parameter(&all, "a"), Some(chars("1")));
    assert_eq!(find_parameter(&all, "b"), Some(chars("2")));
    assert_eq!(find_parameter(&all, "c"), None);
    assert_eq!(find_parameter(&all, ""), None);
}

#[test]
fn signature_is_url_safe_and_unpadded() {
    assert_eq!(url_signature(&chars("a+b/c==")), chars("a-b_c"));
    assert_eq!(url_signature(&chars("ab=c")), chars("ab=c"));
    assert_eq!(url_signature(&chars("====")), chars(""));
    assert_eq!(url_signature(&chars("")), chars(""));
    assert_eq!(url_signature(&chars("+/+/")), chars("-_-_"));
}

#[test]
fn bearer_token_from_header() {
    assert_eq!(extract_access_token_from_header(Some("Bearer abc")), Some("abc".to_string()));
    assert_eq!(extract_access_token_from_header(Some("Bearer Bearer abc")), Some("abc".to_string()));
    assert_eq!(extract_access_token_from_header(Some("Bearer ")), Some(String::new()));
    assert_eq!(extract_access_token_from_header(Some("Bearer")), None);
    assert_eq!(extract_access_token_from_header(Some("bearer abc")), None);
    assert_eq!(extract_access_token_from_header(Some(" Bearer abc")), None);
    assert_eq!(extract_access_token_from_header(Some("")), None);
    assert_eq!(extract_access_token_from_header(None), None);
    assert_eq!(extract_access_token_from_header(Some("Bearer тест")), Some("тест".to_string()));
}

#[test]
fn header_token_wins_over_query_token() {
    let q = || Some(AccessTokenQuery { access_token: "from-query".to_string() });
    assert_eq!(extract_access_token(Some("Bearer h"), q()), Some("h".to_string()));
    assert_eq!(extract_access_token(Some("Basic h"), q()), Some("from-query".to_string()));
    assert_eq!(extract_access_token(None, q()), Some("from-query".to_string()));
    assert_eq!(extract_access_token(None, None), None);
}

#[test]
fn guard_admits_current_tokens_of_numeric_owners() {
    assert_eq!(jwt_token_guard("277790772", 100, 99, 999_999_999), Some(UserId(277790772)));
    assert_eq!(jwt_token_guard("277790772", 100, 100, 0), Some(UserId(277790772)));
    assert_eq!(jwt_token_guard("277790772", 100, 100, 1), None);
    assert_eq!(jwt_token_guard("277790772", 100, 101, 0), None);
    assert_eq!(jwt_token_guard("-5", 100, 0, 0), Some(UserId(-5)));
    assert_eq!(jwt_token_guard("abc", 100, 0, 0), None);
    assert_eq!(jwt_token_guard("", 100, 0, 0), None);
}

#[test]
fn token_claims_for_a_launch() {
    let config = JwtConfig { service_key: KEY.to_string(), expiration: 3600 };
    let request = GetVkJwtTokenRequest { query: QUERY.to_string() };
    assert_eq!(
        generate_vk_jwt_method(&config, &request).unwrap(),
        Claims { id: UserId(277790772), exp: 1641048381 + 3600 }
    );
    let config = JwtConfig { service_key: KEY.to_string(), expiration: i64::MAX };
    assert!(matches!(
        generate_vk_jwt_method(&config, &request),
        Err(VkQueryError::ExpirationOverflow)
    ));
    let config = JwtConfig { service_key: "k".to_string(), expiration: 3600 };
    assert!(matches!(generate_vk_jwt_method(&config, &request), Err(VkQueryError::InvalidSign)));
}
