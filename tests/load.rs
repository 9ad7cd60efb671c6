use garden::config::{
    author_from_json, config_from_json, missing_field, mistyped_field, text_member_of, Author, Config,
    NOT_AN_AUTHOR, NOT_A_CONFIG,
};
use garden::error::{ConfigError, MessageType};
use garden::json::{find_field, JsonValue};
use garden::load::{config_from_parsed, read_config_from_file, FileRead};

fn load_text(text: &str) -> Result<Config, ConfigError> {
    read_config_from_file(FileRead::Read(text.as_bytes().to_vec()))
}

fn author(name: &str, email: &str) -> Author {
    Author { name: name.to_string(), email: email.to_string() }
}

fn member(key: &str, value: JsonValue) -> (String, JsonValue) {
    (key.to_string(), value)
}

#[test]
fn blog_with_one_author_loads() {
    let r = load_text(r#"{"title":"Blog","authors":[{"name":"A","email":"a@x.com"}]}"#);
    assert_eq!(
        r,
        Ok(Config { title: "Blog".to_string(), authors: vec![author("A", "a@x.com")] })
    );
}

#[test]
fn authors_keep_their_order() {
    let r = load_text(
        r#"{"title":"Notes","authors":[{"name":"Zed","email":"z@x.org"},{"name":"Amy","email":"amy@y.net"},{"name":"Bo","email":""}]}"#,
    );
    let c = r.unwrap();
    assert_eq!(c.title, "Notes");
    assert_eq!(
        c.authors,
        vec![author("Zed", "z@x.org"), author("Amy", "amy@y.net"), author("Bo", "")]
    );
}

#[test]
fn unknown_members_are_ignored() {
    let r = load_text(
        r#"{"version": 3, "title":"T","extra":[1, 2.5, null, true],"authors":[{"name":"N","email":"e","age":40}]}"#,
    );
    assert_eq!(r, Ok(Config { title: "T".to_string(), authors: vec![author("N", "e")] }));
}

#[test]
fn empty_title_and_no_authors_load() {
    let r = load_text(r#"{"title":"","authors":[]}"#);
    assert_eq!(r, Ok(Config { title: String::new(), authors: vec![] }));
}

#[test]
fn repeated_member_takes_the_last() {
    let r = load_text(r#"{"title":"First","authors":[],"title":"Second"}"#);
    assert_eq!(r.unwrap().title, "Second");
}

#[test]
fn missing_file_is_an_open_failure() {
    let diagnostic = std::io::Error::from(std::io::ErrorKind::NotFound).to_string();
    let e = read_config_from_file(FileRead::OpenFailed(diagnostic.clone())).unwrap_err();
    assert_eq!(e.err_type, MessageType::Open);
    assert_ne!(e.err_type, MessageType::ReadJSON);
    assert!(e.err_message.contains("not found"));
    assert_eq!(e.err_message, diagnostic);
}

#[test]
fn truncated_json_is_a_parse_failure() {
    let e = load_text(r#"{"title":"Blog","authors":[{"name":"A""#).unwrap_err();
    assert_eq!(e.err_type, MessageType::ReadJSON);
    assert_ne!(e.err_type, MessageType::Open);
    assert!(e.err_message.contains("EOF while parsing"));
}

#[test]
fn missing_authors_is_a_parse_failure() {
    let e = load_text(r#"{"title":"Blog"}"#).unwrap_err();
    assert_eq!(e.err_type, MessageType::ReadJSON);
    assert_eq!(e.err_message, "missing field `authors`");
}

#[test]
fn wrong_member_types_are_parse_failures() {
    let cases = [
        (r#"{"title":7,"authors":[]}"#, "invalid type for field `title`: expected a string"),
        (r#"{"title":"T","authors":{}}"#, "invalid type for field `authors`: expected an array"),
        (r#"{"title":"T","authors":[{"name":"A"}]}"#, "missing field `email`"),
        (
            r#"{"title":"T","authors":[{"name":"A","email":null}]}"#,
            "invalid type for field `email`: expected a string",
        ),
        (r#"{"title":"T","authors":[{"email":"e"}]}"#, "missing field `name`"),
        (r#"{"title":"T","authors":[{"name":"A","email":"e"},3]}"#, NOT_AN_AUTHOR),
        (r#"{"authors":[]}"#, "missing field `title`"),
        (r#"[]"#, NOT_A_CONFIG),
        (r#""Blog""#, NOT_A_CONFIG),
    ];
    for (text, message) in cases {
        let e = load_text(text).unwrap_err();
        assert_eq!(e.err_type, MessageType::ReadJSON, "{}", text);
        assert_eq!(e.err_message, message, "{}", text);
    }
}

#[test]
fn first_faulty_author_is_reported() {
    let e = load_text(
        r#"{"title":"T","authors":[{"name":"A","email":"a"},{"name":1,"email":"b"},{"email":"c"}]}"#,
    )
    .unwrap_err();
    assert_eq!(e.err_message, "invalid type for field `name`: expected a string");
}

#[test]
fn numbers_out_of_float_range_in_unknown_members_are_ignored() {
    let r = load_text(r#"{"title":"Big","size":1e400,"authors":[{"name":"A","email":"a","n":-123456789012345678901234567890}]}"#);
    assert_eq!(r, Ok(Config { title: "Big".to_string(), authors: vec![author("A", "a")] }));
}

#[test]
fn diagnostics_name_the_member() {
    assert_eq!(missing_field("title"), "missing field `title`");
    assert_eq!(mistyped_field("authors", "an array"), "invalid type for field `authors`: expected an array");
    let members = vec![
        member("title", JsonValue::Number("1".to_string())),
        member("name", JsonValue::Str("N".to_string())),
    ];
    assert_eq!(text_member_of(&members, "name"), Ok("N".to_string()));
    assert_eq!(
        text_member_of(&members, "title"),
        Err("invalid type for field `title`: expected a string".to_string())
    );
    assert_eq!(text_member_of(&members, "email"), Err("missing field `email`".to_string()));
}

#[test]
fn empty_content_is_a_parse_failure() {
    let e = load_text("").unwrap_err();
    assert_eq!(e.err_type, MessageType::ReadJSON);
    assert!(e.err_message.contains("EOF"));
}

#[test]
fn unreadable_file_is_a_parse_failure() {
    let e = read_config_from_file(FileRead::ReadFailed("Is a directory (os error 21)".to_string()))
        .unwrap_err();
    assert_eq!(
        e,
        ConfigError {
            err_type: MessageType::ReadJSON,
            err_message: "Is a directory (os error 21)".to_string()
        }
    );
}

#[test]
fn loading_twice_gives_equal_configs() {
    let text = r#"{"title":"Twice","authors":[{"name":"A","email":"a@x.com"},{"name":"B","email":"b@x.com"}]}"#;
    let first = load_text(text);
    let second = load_text(text);
    assert!(first.is_ok());
    assert_eq!(first, second);
}

#[test]
fn parser_diagnostic_is_kept() {
    let r = config_from_parsed(Err("expected value at line 1 column 1".to_string()));
    assert_eq!(
        r,
        Err(ConfigError {
            err_type: MessageType::ReadJSON,
            err_message: "expected value at line 1 column 1".to_string()
        })
    );
}

#[test]
fn parsed_document_becomes_a_config() {
    let doc = JsonValue::Object(vec![
        member("title", JsonValue::Str("Doc".to_string())),
        member(
            "authors",
            JsonValue::Array(vec![JsonValue::Object(vec![
                member("email", JsonValue::Str("m@n.io".to_string())),
                member("name", JsonValue::Str("M".to_string())),
            ])]),
        ),
    ]);
    assert_eq!(
        config_from_parsed(Ok(doc)),
        Ok(Config { title: "Doc".to_string(), authors: vec![author("M", "m@n.io")] })
    );
    assert_eq!(config_from_json(&JsonValue::Null), Err(NOT_A_CONFIG.to_string()));
}

#[test]
fn author_needs_string_name_and_email() {
    let good = JsonValue::Object(vec![
        member("name", JsonValue::Str("A".to_string())),
        member("email", JsonValue::Str("a@x".to_string())),
    ]);
    assert_eq!(author_from_json(&good), Ok(author("A", "a@x")));
    let bad = JsonValue::Object(vec![
        member("name", JsonValue::Str("A".to_string())),
        member("email", JsonValue::Number("3".to_string())),
    ]);
    assert_eq!(
        author_from_json(&bad),
        Err("invalid type for field `email`: expected a string".to_string())
    );
    assert_eq!(author_from_json(&JsonValue::Bool(true)), Err(NOT_AN_AUTHOR.to_string()));
}

#[test]
fn field_lookup_finds_the_last_match() {
    let members = vec![
        member("a", JsonValue::Str("one".to_string())),
        member("b", JsonValue::Null),
        member("a", JsonValue::Str("two".to_string())),
    ];
    assert_eq!(find_field(&members, &"a".to_string()), Some(2));
    assert_eq!(find_field(&members, &"b".to_string()), Some(1));
    assert_eq!(find_field(&members, &"c".to_string()), None);
    assert_eq!(text_member_of(&members, "a"), Ok("two".to_string()));
    assert_eq!(
        text_member_of(&members, "b"),
        Err("invalid type for field `b`: expected a string".to_string())
    );
}

#[test]
fn error_kinds_describe_themselves() {
    assert_eq!(MessageType::Open.description(), "Failed to open file");
    assert_eq!(MessageType::ReadJSON.description(), "Failed to parse json");
}

#[test]
fn error_report_joins_kind_and_message() {
    let e = ConfigError {
        err_type: MessageType::Open,
        err_message: "No such file or directory (os error 2)".to_string(),
    };
    assert_eq!(e.to_string(), "Failed to open file: No such file or directory (os error 2)");
    let e = load_text(r#"{"title":"Blog"}"#).unwrap_err();
    assert_eq!(e.to_string(), "Failed to parse json: missing field `authors`");
}
