use rustybot::codec::{Decode, Encode};
use rustybot::config::{Action, Condition};

fn parse(text: &str) -> serde_json::Value {
    serde_json::from_str(text).unwrap()
}

#[test]
fn test_condition_serde() {
    let condition = Condition::Activity;
    let serialized = serde_json::to_string(&condition.encode()).unwrap();
    assert_eq!(serialized, r#"{"type":"activity"}"#);
    let deserialized = Condition::decode(&parse(&serialized)).unwrap();
    assert!(matches!(deserialized, Condition::Activity));

    let condition = Condition::Command("test".into());
    let serialized = serde_json::to_string(&condition.encode()).unwrap();
    assert_eq!(serialized, r#"{"type":"command","command":"test"}"#);
    let deserialized = Condition::decode(&parse(&serialized)).unwrap();
    assert!(matches!(deserialized, Condition::Command(ref s) if s == "test"));

    let condition = Condition::Label("test".into());
    let serialized = serde_json::to_string(&condition.encode()).unwrap();
    assert_eq!(serialized, r#"{"type":"label","label":"test"}"#);
    let deserialized = Condition::decode(&parse(&serialized)).unwrap();
    assert!(matches!(deserialized, Condition::Label(ref s) if s == "test"));

    let condition = Condition::PullRequest;
    let serialized = serde_json::to_string(&condition.encode()).unwrap();
    assert_eq!(serialized, r#"{"type":"pull-request"}"#);
    let deserialized = Condition::decode(&parse(&serialized)).unwrap();
    assert!(matches!(deserialized, Condition::PullRequest));

    let condition = Condition::Timeout(10);
    let serialized = serde_json::to_string(&condition.encode()).unwrap();
    assert_eq!(serialized, r#"{"type":"timeout","timeout":10}"#);
    let deserialized = Condition::decode(&parse(&serialized)).unwrap();
    assert!(matches!(deserialized, Condition::Timeout(10)));
}

#[test]
fn test_action_serde() {
    let action = Action::AddLabel("test".into());
    let serialized = serde_json::to_string(&action.encode()).unwrap();
    assert_eq!(serialized, r#"{"type":"add-label","label":"test"}"#);
    let deserialized = Action::decode(&parse(&serialized)).unwrap();
    assert!(matches!(deserialized, Action::AddLabel(ref s) if s == "test"));

    let action = Action::Close;
    let serialized = serde_json::to_string(&action.encode()).unwrap();
    assert_eq!(serialized, r#"{"type":"close"}"#);
    let deserialized = Action::decode(&parse(&serialized)).unwrap();
    assert!(matches!(deserialized, Action::Close));

    let action = Action::PostComment("test".into());
    let serialized = serde_json::to_string(&action.encode()).unwrap();
    assert_eq!(serialized, r#"{"type":"post-comment","comment":"test"}"#);
    let deserialized = Action::decode(&parse(&serialized)).unwrap();
    assert!(matches!(deserialized, Action::PostComment(ref s) if s == "test"));

    let action = Action::ReplaceLabel("test".into());
    let serialized = serde_json::to_string(&action.encode()).unwrap();
    assert_eq!(serialized, r#"{"type":"replace-label","label":"test"}"#);
    let deserialized = Action::decode(&parse(&serialized)).unwrap();
    assert!(matches!(deserialized, Action::ReplaceLabel(ref s) if s == "test"));

    let action = Action::RemoveLabel("test".into());
    let serialized = serde_json::to_string(&action.encode()).unwrap();
    assert_eq!(serialized, r#"{"type":"remove-label","label":"test"}"#);
    let deserialized = Action::decode(&parse(&serialized)).unwrap();
    assert!(matches!(deserialized, Action::RemoveLabel(ref s) if s == "test"));
}
