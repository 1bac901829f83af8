//! Structural validation of a raw document against the schema that is built
//! into the program.

use crate::error::{result_view, ConfigError, ConfigErrorView, Violation, ViolationView};
use crate::json::{json_of, json_parse, parse_json, Json};
use vstd::prelude::*;

verus! {

/// The schema of a configuration document: the shape of the state machine,
/// the tags that name conditions and actions, and the type of each field.
pub const SCHEMA: &'static str = r#"{
  "$schema": "http://json-schema.org/draft-07/schema#",
  "title": "Issue state machine",
  "type": "object",
  "required": ["states"],
  "properties": {
    "states": {
      "type": "array",
      "items": {
        "type": "object",
        "required": ["description", "label", "transitions"],
        "properties": {
          "description": { "type": "string" },
          "label": { "type": "string" },
          "transitions": {
            "type": "array",
            "items": {
              "type": "object",
              "required": ["description", "conditions", "actions"],
              "properties": {
                "description": { "type": "string" },
                "conditions": {
                  "type": "array",
                  "items": {
                    "type": "object",
                    "required": ["type"],
                    "properties": {
                      "type": {
                        "enum": ["activity", "command", "label", "pull-request", "timeout"]
                      },
                      "command": { "type": "string" },
                      "label": { "type": "string" },
                      "timeout": { "type": "integer", "minimum": 0, "maximum": 65535 }
                    }
                  }
                },
                "actions": {
                  "type": "array",
                  "items": {
                    "type": "object",
                    "required": ["type"],
                    "properties": {
                      "type": {
                        "enum": [
                          "add-label",
                          "close",
                          "post-comment",
                          "replace-label",
                          "remove-label"
                        ]
                      },
                      "comment": { "type": "string" },
                      "label": { "type": "string" }
                    }
                  }
                }
              }
            }
          }
        }
      }
    }
  }
}"#;

/// `jsonschema::JSONSchema`, a compiled schema, taken as it is: nothing is
/// known of one but the document it was made from.
#[verifier::external_type_specification]
#[verifier::external_body]
pub struct ExJsonSchema(jsonschema::JSONSchema);

/// The schema document that a compiled schema was made from.
pub uninterp spec fn schema_document(schema: jsonschema::JSONSchema) -> Json;

/// Why a document cannot be compiled as a Draft 7 schema: the message of the
/// error, or `None` for a document that compiles.
pub uninterp spec fn draft7_rejection(schema: Json) -> Option<Seq<char>>;

/// The violations that validating `instance` against the Draft 7 schema
/// `schema` reports, in the order in which they are reported.
pub uninterp spec fn draft7_violations(schema: Json, instance: Json) -> Seq<ViolationView>;

/// `JSONSchema::options().with_draft(Draft7).compile(..)` compiles a schema
/// document under the rules of Draft 7, or reports why the document is no
/// such schema. The outcome depends on the document alone.
#[verifier::external_body]
fn compile_draft7(schema: &serde_json::Value) -> (r: Result<jsonschema::JSONSchema, String>)
    ensures
        match r {
            Ok(compiled) => draft7_rejection(json_of(*schema)) is None && schema_document(compiled)
                == json_of(*schema),
            Err(message) => draft7_rejection(json_of(*schema)) == Some(message@),
        },
{
    match jsonschema::JSONSchema::options().with_draft(jsonschema::Draft::Draft7).compile(schema) {
        Ok(compiled) => Ok(compiled),
        Err(e) => Err(e.to_string()),
    }
}

/// `JSONSchema::validate` walks the whole instance and yields every
/// violation it finds, none for a valid instance. Each is handed over as the
/// path of the offending value in the instance and the text of the error.
/// Stated for the schema that is built into this crate.
#[verifier::external_body]
fn violations(schema: &jsonschema::JSONSchema, instance: &serde_json::Value) -> (r: Vec<Violation>)
    requires
        is_built_in(schema_document(*schema)),
    ensures
        r.deep_view() == draft7_violations(schema_document(*schema), json_of(*instance)),
{
    match schema.validate(instance) {
        Ok(()) => Vec::new(),
        Err(errors) => errors.map(|e| Violation::new(e.instance_path.to_string(), e.to_string()))
            .collect(),
    }
}

/// What loading a schema from its text gives: the schema document, or the
/// error of the step that failed, parsing or compiling.
pub open spec fn schema_loaded(text: Seq<char>) -> Result<Json, ConfigErrorView> {
    match json_parse(text) {
        Err(message) => Err(ConfigErrorView::SchemaLoading(message)),
        Ok(document) => match draft7_rejection(document) {
            Some(message) => Err(ConfigErrorView::SchemaLoading(message)),
            None => Ok(document),
        },
    }
}

/// Whether `document` is the schema that is built into the program.
pub open spec fn is_built_in(document: Json) -> bool {
    schema_loaded(SCHEMA@) == Ok::<Json, ConfigErrorView>(document)
}

/// What validating a document gives: nothing to report, every violation of
/// the built-in schema, or the error of loading that schema.
pub open spec fn validated(document: Json) -> Result<(), ConfigErrorView> {
    match schema_loaded(SCHEMA@) {
        Err(e) => Err(e),
        Ok(schema) => checked(draft7_violations(schema, document)),
    }
}

/// What a list of violations means for a document: it passes when the list
/// is empty, and fails with the whole list otherwise.
pub open spec fn checked(violations: Seq<ViolationView>) -> Result<(), ConfigErrorView> {
    if violations.len() == 0 {
        Ok(())
    } else {
        Err(ConfigErrorView::SchemaValidation(violations))
    }
}

/// Parses the text of a schema and compiles it under Draft 7.
///
/// Fails with `SchemaLoading` when the text is not JSON or the document is
/// not a Draft 7 schema; the error holds the message of the step that
/// failed.
pub fn load_schema(schema_text: &str) -> (r: Result<jsonschema::JSONSchema, ConfigError>)
    ensures
        match r {
            Ok(schema) => schema_loaded(schema_text@) == Ok::<Json, ConfigErrorView>(
                schema_document(schema),
            ),
            Err(e) => schema_loaded(schema_text@) == Err::<Json, ConfigErrorView>(e@),
        },
{
    let document = match parse_json(schema_text) {
        Ok(document) => document,
        Err(message) => {
            return Err(ConfigError::SchemaLoading(message));
        },
    };
    match compile_draft7(&document) {
        Ok(schema) => Ok(schema),
        Err(message) => Err(ConfigError::SchemaLoading(message)),
    }
}

/// Turns the outcome of validation into a result: a document without
/// violations passes, and any other fails with all of them.
pub fn check_violations(violations: Vec<Violation>) -> (r: Result<(), ConfigError>)
    ensures
        result_view(r) == checked(violations.deep_view()),
{
    if violations.len() == 0 {
        Ok(())
    } else {
        Err(ConfigError::SchemaValidation(violations))
    }
}

/// Validates a raw document against the built-in schema.
///
/// Returns `Ok` for a document without violations. Otherwise the error is
/// `SchemaValidation` with every violation found, in the order reported,
/// not only the first. Fails with `SchemaLoading` if the built-in schema
/// itself does not load.
pub fn validate(document: &serde_json::Value) -> (r: Result<(), ConfigError>)
    ensures
        result_view(r) == validated(json_of(*document)),
{
    let schema = match load_schema(SCHEMA) {
        Ok(schema) => schema,
        Err(e) => {
            return Err(e);
        },
    };
    check_violations(violations(&schema, document))
}

} // verus!
