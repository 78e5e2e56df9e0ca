use tencent_translate::calendar::date_of;
use tencent_translate::language::Language;
use tencent_translate::request::{
    build_request, request_body, request_headers, BuildError, Credentials, ENDPOINT,
};

fn credentials() -> Credentials {
    Credentials { secret_id: "my-id".to_string(), secret_key: "my-key".to_string() }
}

fn pair(name: &str, value: &str) -> (String, String) {
    (name.to_string(), value.to_string())
}

#[test]
fn dates_follow_the_utc_calendar() {
    assert_eq!(date_of(0).as_deref(), Some("1970-01-01"));
    assert_eq!(date_of(1551113065).as_deref(), Some("2019-02-25"));
    assert_eq!(date_of(1700000000).as_deref(), Some("2023-11-14"));
    assert_eq!(date_of(86399).as_deref(), Some("1970-01-01"));
    assert_eq!(date_of(86400).as_deref(), Some("1970-01-02"));
}

#[test]
fn dates_end_where_the_calendar_ends() {
    assert_eq!(date_of(i64::MAX as u64), None);
    assert_eq!(date_of(1 << 62), None);
    assert_eq!(date_of(u64::MAX).as_deref(), Some("1969-12-31"));
}

#[test]
fn body_is_compact_json_with_sorted_keys() {
    assert_eq!(
        request_body("hello", Language::Chinese),
        "{\"ProjectId\":0,\"Source\":\"auto\",\"SourceText\":\"hello\",\"Target\":\"zh\"}"
    );
    assert_eq!(
        request_body("你好", Language::English),
        "{\"ProjectId\":0,\"Source\":\"auto\",\"SourceText\":\"你好\",\"Target\":\"en\"}"
    );
}

#[test]
fn body_escapes_the_text() {
    assert_eq!(
        request_body("a \"b\"\n\\", Language::Chinese),
        "{\"ProjectId\":0,\"Source\":\"auto\",\"SourceText\":\"a \\\"b\\\"\\n\\\\\",\"Target\":\"zh\"}"
    );
}

#[test]
fn body_is_what_serde_json_prints() {
    let mut map = serde_json::Map::new();
    map.insert("SourceText".to_string(), serde_json::Value::from("tab\there"));
    map.insert("Source".to_string(), serde_json::Value::from("auto"));
    map.insert("Target".to_string(), serde_json::Value::from("zh"));
    map.insert("ProjectId".to_string(), serde_json::Value::from(0));
    assert_eq!(
        request_body("tab\there", Language::Chinese),
        serde_json::Value::Object(map).to_string()
    );
}

#[test]
fn headers_come_in_order() {
    assert_eq!(
        request_headers("signed", 1700000000),
        vec![
            pair("Authorization", "signed"),
            pair("Content-Type", "application/json; charset=utf-8"),
            pair("Host", "tmt.tencentcloudapi.com"),
            pair("X-TC-Action", "TextTranslate"),
            pair("X-TC-Timestamp", "1700000000"),
            pair("X-TC-Version", "2018-03-21"),
            pair("X-TC-Region", "ap-guangzhou"),
        ]
    );
}

#[test]
fn request_for_latin_text() {
    let request = build_request(&credentials(), "hello", 1700000000).unwrap();
    assert_eq!(request.endpoint, ENDPOINT);
    assert_eq!(request.endpoint, "https://tmt.tencentcloudapi.com");
    assert_eq!(
        request.body,
        "{\"ProjectId\":0,\"Source\":\"auto\",\"SourceText\":\"hello\",\"Target\":\"zh\"}"
    );
    assert_eq!(request.headers.len(), 7);
    assert_eq!(
        request.headers[0],
        pair(
            "Authorization",
            "TC3-HMAC-SHA256 Credential=my-id/2023-11-14/tmt/tc3_request, SignedHeaders=content-type;host;x-tc-action, Signature=8fb6d7afbe17a376ea95f63f57d98e9a299a056d8b5e0d7322f98302365a4878"
        )
    );
    assert_eq!(request.headers[4], pair("X-TC-Timestamp", "1700000000"));
}

#[test]
fn request_for_chinese_text() {
    let request = build_request(&credentials(), "你好", 1700000000).unwrap();
    assert_eq!(
        request.body,
        "{\"ProjectId\":0,\"Source\":\"auto\",\"SourceText\":\"你好\",\"Target\":\"en\"}"
    );
    assert_eq!(
        request.headers[0].1,
        "TC3-HMAC-SHA256 Credential=my-id/2023-11-14/tmt/tc3_request, SignedHeaders=content-type;host;x-tc-action, Signature=ad1136d7f25c78aeebeea5b4425bc524da0f858c5bc7a72607068a83a8d96f07"
    );
}

#[test]
fn request_is_the_same_each_time() {
    let first = build_request(&credentials(), "hello", 1700000000).unwrap();
    let second = build_request(&credentials(), "hello", 1700000000).unwrap();
    assert_eq!(first.headers, second.headers);
    assert_eq!(first.body, second.body);
    let later = build_request(&credentials(), "hello", 1700000001).unwrap();
    assert_ne!(first.headers[0], later.headers[0]);
}

#[test]
fn no_request_without_a_date() {
    assert!(matches!(
        build_request(&credentials(), "hello", 1 << 62),
        Err(BuildError::NoCalendarDate)
    ));
}
