use rustybot::error::{ConfigError, Violation};
use rustybot::schema::{check_violations, load_schema, validate, SCHEMA};

fn json(text: &str) -> serde_json::Value {
    serde_json::from_str(text).unwrap()
}

#[test]
fn the_built_in_schema_loads() {
    assert!(load_schema(SCHEMA).is_ok());
}

#[test]
fn a_schema_that_is_not_json_fails_to_load() {
    match load_schema("{ not json") {
        Err(ConfigError::SchemaLoading(message)) => assert!(!message.is_empty()),
        other => panic!("unexpected {:?}", other.map(|_| ())),
    }
}

#[test]
fn a_document_that_is_no_schema_fails_to_load() {
    for text in [r#"{"type": 5}"#, r#"{"required": "states"}"#, r#"[1, 2]"#, r#""text""#] {
        match load_schema(text) {
            Err(ConfigError::SchemaLoading(message)) => assert!(!message.is_empty(), "{}", text),
            other => panic!("{}: unexpected {:?}", text, other.map(|_| ())),
        }
    }
}

#[test]
fn schema_loading_message() {
    let error = ConfigError::SchemaLoading("expected value".to_string());
    assert_eq!(error.message(), "Schema loading error: expected value");
}

#[test]
fn io_message_is_the_message_of_the_failure() {
    let error = ConfigError::Io("No such file or directory (os error 2)".to_string());
    assert_eq!(error.message(), "No such file or directory (os error 2)");
}

#[test]
fn validation_message_lists_every_reason() {
    let error = ConfigError::SchemaValidation(vec![
        Violation::new("/a".to_string(), "first".to_string()),
        Violation::new("/b/0".to_string(), "second".to_string()),
        Violation::new(String::new(), "third".to_string()),
    ]);
    assert_eq!(error.message(), "Schema validation errors:\n  - first\n  - second\n  - third");
    let single = ConfigError::SchemaValidation(vec![Violation::new(
        "/x".to_string(),
        "only".to_string(),
    )]);
    assert_eq!(single.message(), "Schema validation errors:\n  - only");
}

#[test]
fn no_violations_pass_and_any_violation_fails() {
    assert_eq!(check_violations(Vec::new()), Ok(()));
    let one = vec![Violation::new("/states".to_string(), "wrong".to_string())];
    assert_eq!(check_violations(one.clone()), Err(ConfigError::SchemaValidation(one)));
    let two = vec![
        Violation { path: "/a".to_string(), reason: "x".to_string() },
        Violation { path: "/b".to_string(), reason: "y".to_string() },
    ];
    assert_eq!(check_violations(two.clone()), Err(ConfigError::SchemaValidation(two)));
}

#[test]
fn a_document_of_the_right_shape_is_valid() {
    assert_eq!(validate(&json(r#"{"states":[]}"#)), Ok(()));
    let document = json(
        r#"{"states":[{"description":"d","label":"l","transitions":[
            {"description":"t","conditions":[{"type":"pull-request"}],"actions":[{"type":"close"}]}
        ]}]}"#,
    );
    assert_eq!(validate(&document), Ok(()));
}

#[test]
fn unknown_members_are_allowed() {
    let document = json(
        r#"{"version":2,"states":[{"description":"d","label":"l","color":"red","transitions":[
            {"description":"t","conditions":[{"type":"activity","since":"monday"}],"actions":[]}
        ]}]}"#,
    );
    assert_eq!(validate(&document), Ok(()));
}

#[test]
fn the_schema_checks_shape_and_not_meaning() {
    // A timeout condition without its day count has the right shape.
    let document = json(
        r#"{"states":[{"description":"d","label":"l","transitions":[
            {"description":"t","conditions":[{"type":"timeout"}],"actions":[]}
        ]}]}"#,
    );
    assert_eq!(validate(&document), Ok(()));
    // Two states may share a label.
    let document = json(
        r#"{"states":[{"description":"a","label":"l","transitions":[]},
                      {"description":"b","label":"l","transitions":[]}]}"#,
    );
    assert_eq!(validate(&document), Ok(()));
}

#[test]
fn a_missing_member_is_reported_where_it_is_missing() {
    let result = validate(&json(r#"{}"#));
    let expected = Violation {
        path: String::new(),
        reason: r#""states" is a required property"#.to_string(),
    };
    assert_eq!(result, Err(ConfigError::SchemaValidation(vec![expected])));

    let result = validate(&json(r#"{"states":[{"description":"d","label":"l"}]}"#));
    let expected = Violation {
        path: "/states/0".to_string(),
        reason: r#""transitions" is a required property"#.to_string(),
    };
    assert_eq!(result, Err(ConfigError::SchemaValidation(vec![expected])));
}

#[test]
fn a_member_of_the_wrong_type_is_reported() {
    let result = validate(&json(r#"{"states":[{"description":"d","label":5,"transitions":[]}]}"#));
    let expected = Violation {
        path: "/states/0/label".to_string(),
        reason: r#"5 is not of type "string""#.to_string(),
    };
    assert_eq!(result, Err(ConfigError::SchemaValidation(vec![expected])));
}

#[test]
fn violations_are_reported_in_a_fixed_order() {
    let document = json(
        r#"{"states":[{"label":5,"transitions":[{"description":"t","conditions":[],"actions":[{"type":"x"}]}]}]}"#,
    );
    let first = validate(&document);
    for _ in 0..5 {
        assert_eq!(validate(&document), first);
    }
    match first {
        Err(ConfigError::SchemaValidation(violations)) => assert_eq!(violations.len(), 3),
        other => panic!("unexpected {:?}", other),
    }
}
