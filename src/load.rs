use vstd::prelude::*;
use crate::config::{
    Config, ConfigView, author_of_json, config_of_json, config_from_json, lemma_authors_all_present,
    missing_field_message, text_member,
};
use crate::error::{ConfigError, ConfigErrorView, MessageType};
use crate::json::{JsonValue, field_of, json_of_bytes, parse_json};

verus! {

/// What became of the attempt to read the configuration file.
#[derive(Debug, Clone)]
pub enum FileRead {
    /// The file could not be opened; the system's diagnostic.
    OpenFailed(String),
    /// The file was opened but reading it failed; the system's diagnostic.
    ReadFailed(String),
    /// The whole content of the file.
    Read(Vec<u8>),
}

pub open spec fn parse_failure(message: Seq<char>) -> Result<ConfigView, ConfigErrorView> {
    Err(ConfigErrorView { kind: MessageType::ReadJSON, message })
}

/// The outcome of loading from the parser's outcome.
pub open spec fn load_of_parsed(parsed: Result<JsonValue, Seq<char>>) -> Result<ConfigView, ConfigErrorView> {
    match parsed {
        Err(m) => parse_failure(m),
        Ok(j) => match config_of_json(j) {
            Ok(c) => Ok(c),
            Err(m) => parse_failure(m),
        },
    }
}

/// The outcome of loading from the content of a file.
pub open spec fn load_of_bytes(bytes: Seq<u8>) -> Result<ConfigView, ConfigErrorView> {
    load_of_parsed(json_of_bytes(bytes))
}

/// The outcome of loading, whatever became of the file.
pub open spec fn load_outcome(file: FileRead) -> Result<ConfigView, ConfigErrorView> {
    match file {
        FileRead::OpenFailed(m) => Err(ConfigErrorView { kind: MessageType::Open, message: m@ }),
        FileRead::ReadFailed(m) => parse_failure(m@),
        FileRead::Read(b) => load_of_bytes(b@),
    }
}

pub open spec fn outcome_view(r: Result<Config, ConfigError>) -> Result<ConfigView, ConfigErrorView> {
    match r {
        Ok(c) => Ok(c@),
        Err(e) => Err(e@),
    }
}

/// Loads a configuration from what the JSON parser made of a file's content.
pub fn config_from_parsed(parsed: Result<JsonValue, String>) -> (r: Result<Config, ConfigError>)
    ensures
        outcome_view(r) == load_of_parsed(match parsed {
            Ok(j) => Ok::<JsonValue, Seq<char>>(j),
            Err(m) => Err::<JsonValue, Seq<char>>(m@),
        }),
{
    match parsed {
        Err(m) => Err(ConfigError { err_type: MessageType::ReadJSON, err_message: m }),
        Ok(j) => match config_from_json(&j) {
            Ok(c) => Ok(c),
            Err(m) => Err(ConfigError { err_type: MessageType::ReadJSON, err_message: m }),
        },
    }
}

/// Loads a configuration from what became of reading its file: a file that
/// could not be opened is an `Open` failure; one that could not be read, or
/// whose content is not a JSON document of the configuration's shape, is a
/// `ReadJSON` failure.
pub fn read_config_from_file(file: FileRead) -> (r: Result<Config, ConfigError>)
    ensures
        outcome_view(r) == load_outcome(file),
{
    match file {
        FileRead::OpenFailed(m) => Err(ConfigError { err_type: MessageType::Open, err_message: m }),
        FileRead::ReadFailed(m) => Err(ConfigError { err_type: MessageType::ReadJSON, err_message: m }),
        FileRead::Read(bytes) => config_from_parsed(parse_json(bytes.as_slice())),
    }
}

/// Content that is a JSON object with a string `title` and an `authors` array
/// whose items are all objects with string `name` and `email` loads, and the
/// configuration holds that title and those authors, in the array's order.
pub proof fn lemma_schema_document_loads(
    bytes: Seq<u8>,
    members: Vec<(String, JsonValue)>,
    items: Vec<JsonValue>,
)
    requires
        json_of_bytes(bytes) == Ok::<JsonValue, Seq<char>>(JsonValue::Object(members)),
        text_member(members@, "title"@) is Ok,
        field_of(members@, "authors"@) == Some(JsonValue::Array(items)),
        forall|i: int| 0 <= i < items@.len() ==> (#[trigger] author_of_json(items@[i])) is Ok,
    ensures
        load_of_bytes(bytes) is Ok,
        load_of_bytes(bytes)->Ok_0.title == text_member(members@, "title"@)->Ok_0,
        load_of_bytes(bytes)->Ok_0.authors.len() == items@.len(),
        forall|i: int|
            0 <= i < items@.len() ==> load_of_bytes(bytes)->Ok_0.authors[i] == (#[trigger] author_of_json(
                items@[i],
            ))->Ok_0,
{
    lemma_authors_all_present(items@);
}

/// A file that cannot be opened fails as `Open`, with the system's
/// diagnostic, and never as `ReadJSON`.
pub proof fn lemma_unopened_file_fails_open(message: String)
    ensures
        load_outcome(FileRead::OpenFailed(message)) == Err::<ConfigView, ConfigErrorView>(
            ConfigErrorView { kind: MessageType::Open, message: message@ },
        ),
        load_outcome(FileRead::OpenFailed(message))->Err_0.kind != MessageType::ReadJSON,
{
}

/// Content that is not a JSON document fails as `ReadJSON`, with the parser's
/// diagnostic.
pub proof fn lemma_invalid_json_fails_parse(bytes: Seq<u8>)
    requires
        json_of_bytes(bytes) is Err,
    ensures
        load_of_bytes(bytes) == parse_failure(json_of_bytes(bytes)->Err_0),
        load_of_bytes(bytes)->Err_0.kind != MessageType::Open,
{
}

/// Whatever the content of a file that was opened, loading it never fails as
/// `Open`.
pub proof fn lemma_content_never_fails_open(bytes: Seq<u8>)
    ensures
        load_of_bytes(bytes) is Err ==> load_of_bytes(bytes)->Err_0.kind == MessageType::ReadJSON,
{
}

/// A JSON document that is not an object with an `authors` member fails as
/// `ReadJSON`; when its `title` is in order, the diagnostic names the
/// missing `authors`.
pub proof fn lemma_missing_authors_fails_parse(bytes: Seq<u8>)
    requires
        json_of_bytes(bytes) is Ok,
        json_of_bytes(bytes) matches Ok(JsonValue::Object(members)) ==> field_of(members@, "authors"@) is None,
    ensures
        load_of_bytes(bytes) is Err,
        load_of_bytes(bytes)->Err_0.kind == MessageType::ReadJSON,
        json_of_bytes(bytes) matches Ok(JsonValue::Object(members)) && text_member(members@, "title"@) is Ok
            ==> load_of_bytes(bytes)->Err_0.message == missing_field_message("authors"@),
{
}

/// Loading the same content twice gives equal outcomes.
pub proof fn lemma_load_idempotent(first: FileRead, second: FileRead)
    requires
        first matches FileRead::Read(a) && second matches FileRead::Read(b) && a@ == b@,
    ensures
        load_outcome(first) == load_outcome(second),
{
}

} // verus!
