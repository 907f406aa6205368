use fetchr::ai::{clean_response, directive_from_fields, directive_from_reply, reply_text, full_prompt, gemini_url, parse_expanded_query, strip_leading, strip_trailing, PROMPT_TEMPLATE};
use fetchr::cli::filter_info;
use fetchr::json::{json_field, json_inner_field, pick_first_text, JsonField};
use fetchr::errors::{api_error_message, extract_error_message, format_api_error, network_error_message};

#[test]
fn api_errors_by_status() {
    assert_eq!(
        api_error_message("Gemini", 401, None),
        "🔑 Gemini error: Invalid API key\n   Hint: Run: fetchr config set-key gemini <YOUR_KEY>"
    );
    assert_eq!(
        api_error_message("Serper", 503, Some("down")),
        "🔧 Serper error: Service temporarily unavailable\n   Hint: Serper is experiencing issues. Try again in a few minutes.\n   Detail: down"
    );
    assert_eq!(
        api_error_message("Serper", 418, None),
        "⚠️ Serper error: Request failed\n   Hint: HTTP 418 - check your internet connection"
    );
}

#[test]
fn api_error_detail_comes_from_json_body() {
    let nested = format_api_error("Gemini", 400, r#"{"error": {"message": "bad key"}}"#);
    assert!(nested.ends_with("\n   Detail: bad key"));
    let flat = format_api_error("Serper", 403, r#"{"message": "quota"}"#);
    assert!(flat.ends_with("\n   Detail: quota"));
    let plain = format_api_error("Serper", 404, r#"{"error": "gone"}"#);
    assert!(plain.ends_with("\n   Detail: gone"));
    let not_json = format_api_error("Serper", 500, "oops");
    assert_eq!(not_json, api_error_message("Serper", 500, None));
    let empty = format_api_error("Serper", 402, "");
    assert_eq!(empty, api_error_message("Serper", 402, None));
    let long_body = format!(r#"{{"message": "{}"}}"#, "x".repeat(300));
    assert_eq!(format_api_error("Serper", 429, &long_body), api_error_message("Serper", 429, None));
}

#[test]
fn network_errors_by_kind() {
    assert_eq!(
        network_error_message("Gemini", true, true, false),
        "⏱️ Gemini: Connection timed out\n   Hint: Gemini took too long to respond. Check your internet or try again."
    );
    assert_eq!(
        network_error_message("Serper", false, false, false),
        "❌ Serper: Network error\n   Hint: An unexpected network error occurred."
    );
}

#[test]
fn replies_are_unfenced_and_parsed() {
    assert_eq!(clean_response("  ```json\n{\"query\": \"a\"}\n```  "), "{\"query\": \"a\"}");
    assert_eq!(strip_leading("ababc", "ab"), "c");
    assert_eq!(strip_trailing("cabab", "ab"), "c");
    let q = parse_expanded_query(r#"{"query": "BMW logo svg", "img_size": "large", "img_type": null}"#).unwrap();
    assert_eq!(q.query, "BMW logo svg");
    assert_eq!(q.img_size.as_deref(), Some("large"));
    assert_eq!(q.img_type, None);
    let missing = parse_expanded_query(r#"{"img_size": "large"}"#);
    assert_eq!(missing.unwrap_err(), r#"Failed to parse AI response as JSON: {"img_size": "large"}"#);
    assert!(parse_expanded_query("not json").is_err());
    assert!(parse_expanded_query(r#"{"query": "a", "img_type": 3}"#).is_err());
}

#[test]
fn prompts_and_endpoints() {
    let p = full_prompt("BMW logo", "CTX\n");
    assert!(p.starts_with(PROMPT_TEMPLATE));
    assert!(p.ends_with("CTX\nUser input: BMW logo"));
    assert_eq!(
        gemini_url("KEY"),
        "https://generativelanguage.googleapis.com/v1beta/models/gemini-2.0-flash:generateContent?key=KEY"
    );
}

#[test]
fn filter_labels() {
    assert_eq!(filter_info(&Some("large".into()), &Some("photo".into())), " [large:photo]");
    assert_eq!(filter_info(&Some("icon".into()), &None), " [icon]");
    assert_eq!(filter_info(&None, &Some("clipart".into())), " [clipart]");
    assert_eq!(filter_info(&None, &None), "");
}

#[test]
fn json_members_are_read() {
    assert!(matches!(json_field("{\"a\": \"x\"}", "a"), JsonField::Text(ref t) if t == "x"));
    assert!(matches!(json_field("{\"a\": null}", "a"), JsonField::Null));
    assert!(matches!(json_field("{\"a\": 1}", "a"), JsonField::Other));
    assert!(matches!(json_field("{\"a\": 1}", "b"), JsonField::Missing));
    assert!(matches!(json_field("[1]", "a"), JsonField::NotObject));
    assert!(matches!(json_field("nope", "a"), JsonField::Unparsed));
    assert!(matches!(json_inner_field("{\"e\": {\"m\": \"x\"}}", "e", "m"), JsonField::Text(ref t) if t == "x"));
    assert!(matches!(json_inner_field("{\"e\": \"x\"}", "e", "m"), JsonField::NotObject));
}

#[test]
fn error_messages_are_extracted_in_order() {
    assert_eq!(extract_error_message(r#"{"error":{"message":"bad key"}}"#), Some("bad key".to_string()));
    assert_eq!(extract_error_message(r#"{"message":"bad key"}"#), Some("bad key".to_string()));
    assert_eq!(extract_error_message(r#"{"error":"bad key"}"#), Some("bad key".to_string()));
    assert_eq!(extract_error_message(r#"{"error":{"message":"a"},"message":"b"}"#), Some("a".to_string()));
    assert_eq!(extract_error_message("not json"), None);
    assert_eq!(
        pick_first_text(JsonField::Other, JsonField::Text("b".into()), JsonField::Text("c".into())),
        Some("b".to_string())
    );
}

#[test]
fn directives_come_from_fields_and_replies() {
    let d = directive_from_fields(JsonField::Text("q".into()), JsonField::Missing, JsonField::Text("photo".into())).unwrap();
    assert_eq!(d.query, "q");
    assert_eq!(d.img_size, None);
    assert_eq!(d.img_type.as_deref(), Some("photo"));
    assert!(directive_from_fields(JsonField::Null, JsonField::Missing, JsonField::Missing).is_none());
    assert!(directive_from_fields(JsonField::Text("q".into()), JsonField::Other, JsonField::Missing).is_none());
    assert_eq!(reply_text(&vec![]).unwrap_err(), "No response from Gemini");
    assert_eq!(reply_text(&vec![vec![]]).unwrap_err(), "No content in Gemini response");
    assert_eq!(reply_text(&vec![vec!["a".to_string(), "b".to_string()]]).unwrap(), "a");
    let fenced = vec![vec!["```json\n{\"query\": \"cat\", \"img_size\": \"large\"}\n```".to_string()]];
    let d = directive_from_reply(&fenced).unwrap();
    assert_eq!(d.query, "cat");
    assert_eq!(d.img_size.as_deref(), Some("large"));
    let bad = vec![vec!["```\nhello\n```".to_string()]];
    assert_eq!(directive_from_reply(&bad).unwrap_err(), "Failed to parse AI response as JSON: hello");
}
