use tencent_translate::digest::hash_hex;
use tencent_translate::language::{target_language, Language};
use tencent_translate::presenter::{
    present, render, render_failure, render_translation, ResponseError, CSS,
};
use tencent_translate::request::{request_body, ACTION, HOST};
use tencent_translate::signer::{
    canonical_headers, canonical_request, CANONICAL_QUERY, CANONICAL_URI, CONTENT_TYPE, METHOD,
    SIGNED_HEADERS,
};

fn page(original: &str, translated: &str) -> String {
    format!(
        "{}\n<div class=\"originalText\">{}</div>\n<br><br>\n<div class=\"frame\">\n<definition>{}</definition>\n</div>\n<br>\n",
        CSS, original, translated
    )
}

#[test]
fn style_sheet_is_whole() {
    assert!(CSS.starts_with("<style type=\"text/css\">\n.engine {\n  font-family: \"MiSansVF\";"));
    assert!(CSS.ends_with("    font-size: 16px;\n}\n</style>"));
    assert_eq!(CSS.lines().count(), 29);
}

#[test]
fn page_holds_both_texts() {
    assert_eq!(render_translation("hello", "你好"), page("hello", "你好"));
    assert_eq!(render("hello", Some("你好"), "ignored"), page("hello", "你好"));
}

#[test]
fn failure_line_shows_the_answer() {
    assert_eq!(render_failure("Null"), "Api response error! Response: Null\n");
    assert_eq!(render("hello", None, "Null"), "Api response error! Response: Null\n");
}

#[test]
fn latin_text_end_to_end() {
    assert_eq!(target_language("hello"), Language::Chinese);
    let body = request_body("hello", target_language("hello"));
    assert_eq!(
        body,
        "{\"ProjectId\":0,\"Source\":\"auto\",\"SourceText\":\"hello\",\"Target\":\"zh\"}"
    );
    let request = canonical_request(
        METHOD,
        CANONICAL_URI,
        CANONICAL_QUERY,
        &canonical_headers(CONTENT_TYPE, HOST, ACTION),
        SIGNED_HEADERS,
        &hash_hex(body.as_bytes()),
    );
    assert_eq!(
        request,
        "POST\n/\n\ncontent-type:application/json; charset=utf-8\nhost:tmt.tencentcloudapi.com\nx-tc-action:texttranslate\n\ncontent-type;host;x-tc-action\naf95b1818f3f1dd2b4ed6191b8406cff187da1193de5a8f527a7b6a13744e006"
    );
    assert_eq!(
        hash_hex(request.as_bytes()),
        "c902c74ff9003e3e18352ff8c8b1b0eb4dbc7230877ef55f8da836d9f1b9df0d"
    );
    let out = present("hello", "{\"Response\":{\"TargetText\":\"你好\"}}".as_bytes()).unwrap();
    assert!(out.contains("<definition>你好</definition>"));
    assert_eq!(out, page("hello", "你好"));
}

#[test]
fn chinese_text_end_to_end() {
    assert_eq!(target_language("你好"), Language::English);
    let out = present("你好", b"{\"Response\":{\"TargetText\":\"hello\"}}").unwrap();
    assert!(out.contains("<definition>hello</definition>"));
    assert_eq!(out, page("你好", "hello"));
}

#[test]
fn error_answer_is_reported() {
    let out = present("hello", b"{\"Response\":{\"Error\":{\"Code\":\"AuthFailure\"}}}").unwrap();
    assert_eq!(
        out,
        "Api response error! Response: Object {\"Response\": Object {\"Error\": Object {\"Code\": String(\"AuthFailure\")}}}\n"
    );
}

#[test]
fn answer_without_the_text_is_reported() {
    assert_eq!(
        present("hello", b"{}").unwrap(),
        "Api response error! Response: Object {}\n"
    );
    assert_eq!(
        present("hello", b"null").unwrap(),
        "Api response error! Response: Null\n"
    );
    assert_eq!(
        present("hello", b"[1, 2]").unwrap(),
        "Api response error! Response: Array [Number(1), Number(2)]\n"
    );
    assert_eq!(
        present("hello", b"{\"Response\":{\"TargetText\":5}}").unwrap(),
        "Api response error! Response: Object {\"Response\": Object {\"TargetText\": Number(5)}}\n"
    );
    assert_eq!(
        present("hello", b"{\"TargetText\":\"x\"}").unwrap(),
        "Api response error! Response: Object {\"TargetText\": String(\"x\")}\n"
    );
}

#[test]
fn escapes_in_the_answer_are_read() {
    let out = present("hi", b" {\"Response\": {\"TargetText\": \"a\\n\\u4f60\"}} ").unwrap();
    assert_eq!(out, page("hi", "a\n你"));
}

#[test]
fn body_that_is_not_json_is_an_error() {
    assert_eq!(present("hello", b"not json"), Err(ResponseError::Malformed));
    assert_eq!(present("hello", b""), Err(ResponseError::Malformed));
    assert_eq!(present("hello", b"{} {}"), Err(ResponseError::Malformed));
    assert_eq!(present("hello", &[0xff, 0xfe]), Err(ResponseError::Malformed));
}
