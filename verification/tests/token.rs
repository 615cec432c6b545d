use openclaw_token::error::TokenError;
use openclaw_token::json::Json;
use openclaw_token::parse::parse_document;
use openclaw_token::token::{extract_token, token_from_read, token_from_text};

fn object(members: Vec<(&str, Json)>) -> Json {
    Json::Object(members.into_iter().map(|(k, v)| (k.to_string(), v)).collect())
}

fn config(token: Json) -> Json {
    object(vec![("gateway", object(vec![("auth", object(vec![("token", token)]))]))])
}

#[test]
fn valid_document_gives_the_token() {
    let text = "{\"gateway\":{\"auth\":{\"token\":\"abc123\"}}}";
    assert_eq!(token_from_text(text), Ok("abc123".to_string()));
}

#[test]
fn malformed_json_is_a_parse_error() {
    let r = token_from_text("{not json");
    assert!(matches!(r, Err(TokenError::ParseError { .. })));
}

#[test]
fn parse_error_carries_the_parser_message() {
    let r = token_from_text("{not json");
    assert_eq!(
        r,
        Err(TokenError::ParseError { cause: "key must be a string at line 1 column 2".to_string() })
    );
}

#[test]
fn empty_text_is_a_parse_error() {
    let r = token_from_text("");
    assert_eq!(
        r,
        Err(TokenError::ParseError {
            cause: "EOF while parsing a value at line 1 column 0".to_string()
        })
    );
}

#[test]
fn trailing_text_is_a_parse_error() {
    let r = token_from_text("{} x");
    assert!(matches!(r, Err(TokenError::ParseError { .. })));
}

#[test]
fn empty_object_has_no_token() {
    assert_eq!(token_from_text("{}"), Err(TokenError::FieldNotFound));
}

#[test]
fn numeric_token_is_not_found() {
    let text = "{\"gateway\":{\"auth\":{\"token\":42}}}";
    assert_eq!(token_from_text(text), Err(TokenError::FieldNotFound));
}

#[test]
fn null_bool_array_and_object_tokens_are_not_found() {
    for value in ["null", "true", "[\"abc123\"]", "{\"value\":\"abc123\"}"] {
        let text = format!("{{\"gateway\":{{\"auth\":{{\"token\":{}}}}}}}", value);
        assert_eq!(token_from_text(&text), Err(TokenError::FieldNotFound));
    }
}

#[test]
fn missing_levels_are_not_found() {
    assert_eq!(token_from_text("{\"gateway\":{}}"), Err(TokenError::FieldNotFound));
    assert_eq!(token_from_text("{\"gateway\":{\"auth\":{}}}"), Err(TokenError::FieldNotFound));
    assert_eq!(
        token_from_text("{\"auth\":{\"token\":\"abc123\"}}"),
        Err(TokenError::FieldNotFound)
    );
}

#[test]
fn a_level_that_is_no_object_is_not_found() {
    assert_eq!(token_from_text("{\"gateway\":\"x\"}"), Err(TokenError::FieldNotFound));
    assert_eq!(
        token_from_text("{\"gateway\":[{\"auth\":{\"token\":\"abc123\"}}]}"),
        Err(TokenError::FieldNotFound)
    );
    assert_eq!(
        token_from_text("[{\"gateway\":{\"auth\":{\"token\":\"abc123\"}}}]"),
        Err(TokenError::FieldNotFound)
    );
    assert_eq!(token_from_text("\"abc123\""), Err(TokenError::FieldNotFound));
}

#[test]
fn token_is_returned_verbatim() {
    let text = "{\"gateway\":{\"auth\":{\"token\":\"  a b\\n\\u00e9 \"}}}";
    assert_eq!(token_from_text(text), Ok("  a b\n\u{e9} ".to_string()));
    let empty = "{\"gateway\":{\"auth\":{\"token\":\"\"}}}";
    assert_eq!(token_from_text(empty), Ok(String::new()));
}

#[test]
fn other_fields_are_ignored() {
    let text = "{\"version\":3,\"gateway\":{\"bind\":\"loopback\",\"auth\":{\"mode\":\"token\",\
                \"token\":\"abc123\"},\"tls\":null},\"agents\":[1,2.5,-3]}";
    assert_eq!(token_from_text(text), Ok("abc123".to_string()));
}

#[test]
fn last_of_repeated_members_counts() {
    let text = "{\"gateway\":{\"auth\":{\"token\":\"first\",\"token\":\"second\"}}}";
    assert_eq!(token_from_text(text), Ok("second".to_string()));
}

#[test]
fn parse_document_builds_the_tree() {
    let doc = parse_document("{\"b\":[null,true,\"s\",-7,1.5],\"a\":{}}").unwrap();
    let expected = object(vec![
        ("a", object(vec![])),
        (
            "b",
            Json::Array(vec![
                Json::Null,
                Json::Bool(true),
                Json::Text("s".to_string()),
                Json::Number("-7".to_string()),
                Json::Number("1.5".to_string()),
            ]),
        ),
    ]);
    assert_eq!(doc, expected);
}

#[test]
fn parse_document_reports_the_parser_message() {
    assert_eq!(
        parse_document("[1,"),
        Err(TokenError::ParseError {
            cause: "EOF while parsing a value at line 1 column 3".to_string()
        })
    );
}

#[test]
fn extract_token_from_a_built_document() {
    assert_eq!(extract_token(&config(Json::Text("abc123".to_string()))), Ok("abc123".to_string()));
    assert_eq!(
        extract_token(&config(Json::Number("42".to_string()))),
        Err(TokenError::FieldNotFound)
    );
    assert_eq!(extract_token(&object(vec![])), Err(TokenError::FieldNotFound));
    assert_eq!(extract_token(&Json::Null), Err(TokenError::FieldNotFound));
}

#[test]
fn get_finds_the_first_member_of_a_name() {
    let doc = object(vec![
        ("a", Json::Bool(false)),
        ("b", Json::Null),
        ("a", Json::Bool(true)),
    ]);
    assert_eq!(doc.get("a"), Some(&Json::Bool(false)));
    assert_eq!(doc.get("b"), Some(&Json::Null));
    assert_eq!(doc.get("c"), None);
    assert_eq!(Json::Array(vec![Json::Null]).get("0"), None);
    assert_eq!(Json::Text("a".to_string()).get("a"), None);
}

#[test]
fn as_str_is_some_for_strings_only() {
    assert_eq!(Json::Text("abc".to_string()).as_str(), Some("abc"));
    assert_eq!(Json::Number("1".to_string()).as_str(), None);
    assert_eq!(Json::Null.as_str(), None);
    assert_eq!(Json::Bool(true).as_str(), None);
    assert_eq!(Json::Array(vec![]).as_str(), None);
    assert_eq!(object(vec![]).as_str(), None);
}

#[test]
fn unreadable_file_is_a_file_read_error() {
    let r = token_from_read(
        "/home/alice/.openclaw/openclaw.json",
        Err("No such file or directory (os error 2)".to_string()),
    );
    assert_eq!(
        r,
        Err(TokenError::FileReadError {
            path: "/home/alice/.openclaw/openclaw.json".to_string(),
            cause: "No such file or directory (os error 2)".to_string(),
        })
    );
}

#[test]
fn readable_file_is_parsed() {
    let path = "/home/alice/.openclaw/openclaw.json";
    let text = "{\"gateway\":{\"auth\":{\"token\":\"abc123\"}}}".to_string();
    assert_eq!(token_from_read(path, Ok(text)), Ok("abc123".to_string()));
    assert_eq!(token_from_read(path, Ok("{}".to_string())), Err(TokenError::FieldNotFound));
    assert!(matches!(
        token_from_read(path, Ok("{not json".to_string())),
        Err(TokenError::ParseError { .. })
    ));
}

#[test]
fn unchanged_text_gives_the_same_result_again() {
    for text in ["{\"gateway\":{\"auth\":{\"token\":\"abc123\"}}}", "{}", "{not json"] {
        let first = token_from_text(text);
        let second = token_from_text(text);
        assert_eq!(first, second);
    }
}
