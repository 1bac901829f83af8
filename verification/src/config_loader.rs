//! Loading a state machine from the text of a configuration document.

use crate::codec::Decode;
use crate::config::{StateMachine, StateMachineView};
use crate::error::{result_view, ConfigError, ConfigErrorView};
use crate::json::{json_of, Json};
use crate::schema::{draft7_violations, schema_loaded, validate, validated, SCHEMA};
use vstd::prelude::*;

verus! {

/// What `serde_yaml::from_str` makes of a text: the tree of the document, or
/// the message of the syntax error.
pub uninterp spec fn yaml_parse(text: Seq<char>) -> Result<Json, Seq<char>>;

/// `serde_yaml::from_str` reads a YAML text as a `serde_json::Value`, or
/// reports why it cannot: the text is not well-formed, or holds what no such
/// value can hold. The outcome depends on the text alone.
#[verifier::external_body]
fn parse_yaml(text: &str) -> (r: Result<serde_json::Value, String>)
    ensures
        match r {
            Ok(v) => yaml_parse(text@) == Ok::<Json, Seq<char>>(json_of(v)),
            Err(message) => yaml_parse(text@) == Err::<Json, Seq<char>>(message@),
        },
{
    match serde_yaml::from_str::<serde_json::Value>(text) {
        Ok(v) => Ok(v),
        Err(e) => Err(e.to_string()),
    }
}

/// What parsing a source gives: the raw document, or `Parse` with the
/// diagnostic.
pub open spec fn parsed(source: Seq<char>) -> Result<Json, ConfigErrorView> {
    match yaml_parse(source) {
        Ok(document) => Ok(document),
        Err(message) => Err(ConfigErrorView::Parse(message)),
    }
}

/// What loading a raw document gives. Validation comes first: a document
/// with violations fails with them, whatever decoding would make of it.
pub open spec fn document_loaded(document: Json) -> Result<StateMachineView, ConfigErrorView> {
    match validated(document) {
        Err(e) => Err(e),
        Ok(_) => match StateMachine::decoded(document) {
            Ok(machine) => Ok(machine),
            Err(e) => Err(ConfigErrorView::Decode(e)),
        },
    }
}

/// What validating a source gives: the error of parsing, or the outcome of
/// validating the parsed document.
pub open spec fn config_validated(source: Seq<char>) -> Result<(), ConfigErrorView> {
    match parsed(source) {
        Err(e) => Err(e),
        Ok(document) => validated(document),
    }
}

/// What loading a source gives: the state machine, or the error of the
/// first step that failed: parsing, validation, decoding.
pub open spec fn config_loaded(source: Seq<char>) -> Result<StateMachineView, ConfigErrorView> {
    match parsed(source) {
        Err(e) => Err(e),
        Ok(document) => document_loaded(document),
    }
}

/// Parses the text of a configuration into a raw document.
///
/// Fails with `Parse` and the parser's diagnostic when the text is not
/// well-formed.
pub fn parse_document(source: &str) -> (r: Result<serde_json::Value, ConfigError>)
    ensures
        match r {
            Ok(document) => parsed(source@) == Ok::<Json, ConfigErrorView>(json_of(document)),
            Err(e) => parsed(source@) == Err::<Json, ConfigErrorView>(e@),
        },
{
    match parse_yaml(source) {
        Ok(document) => Ok(document),
        Err(message) => Err(ConfigError::Parse(message)),
    }
}

/// Validates a raw document and, only if it has no violations, decodes it
/// into the typed state machine.
pub fn load_document(document: &serde_json::Value) -> (r: Result<StateMachine, ConfigError>)
    ensures
        result_view(r) == document_loaded(json_of(*document)),
{
    match validate(document) {
        Ok(()) => match StateMachine::decode(document) {
            Ok(machine) => Ok(machine),
            Err(e) => Err(ConfigError::Decode(e)),
        },
        Err(e) => Err(e),
    }
}

/// Parses the text of a configuration and validates the document against
/// the built-in schema.
pub fn validate_config(source: &str) -> (r: Result<(), ConfigError>)
    ensures
        result_view(r) == config_validated(source@),
{
    match parse_document(source) {
        Ok(document) => validate(&document),
        Err(e) => Err(e),
    }
}

/// Loads a state machine from the text of a configuration: parses the text,
/// validates the document against the built-in schema, and decodes it. Each
/// step runs only if the one before succeeded, and the result depends on
/// the text alone.
pub fn load_config(source: &str) -> (r: Result<StateMachine, ConfigError>)
    ensures
        result_view(r) == config_loaded(source@),
{
    match parse_document(source) {
        Ok(document) => load_document(&document),
        Err(e) => Err(e),
    }
}

/// Violations stop a load before decoding: a source whose document breaks
/// the schema fails with all of its violations, whatever decoding would
/// make of the document.
pub proof fn lemma_violations_stop_loading(source: Seq<char>, schema: Json, document: Json)
    requires
        schema_loaded(SCHEMA@) == Ok::<Json, ConfigErrorView>(schema),
        yaml_parse(source) == Ok::<Json, Seq<char>>(document),
        draft7_violations(schema, document).len() > 0,
    ensures
        config_loaded(source) == Err::<StateMachineView, ConfigErrorView>(
            ConfigErrorView::SchemaValidation(draft7_violations(schema, document)),
        ),
        config_validated(source) == Err::<(), ConfigErrorView>(
            ConfigErrorView::SchemaValidation(draft7_violations(schema, document)),
        ),
{
}

/// Loading is a function of the source: two loads of one text give equal
/// results, and so structurally equal state machines.
pub proof fn lemma_load_is_deterministic(
    source: Seq<char>,
    first: Result<StateMachine, ConfigError>,
    second: Result<StateMachine, ConfigError>,
)
    requires
        result_view(first) == config_loaded(source),
        result_view(second) == config_loaded(source),
    ensures
        result_view(first) == result_view(second),
        first is Ok ==> second is Ok && first->Ok_0@ == second->Ok_0@,
{
}

} // verus!
