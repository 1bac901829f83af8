use rustybot::codec::{decode_list, encode_list, Decode, Encode};
use rustybot::config::{Action, Condition, State, StateMachine, Transition};
use rustybot::error::DecodeError;
use rustybot::wire;
use rustybot::wire::{ActionType, ConditionType};

fn json(text: &str) -> serde_json::Value {
    serde_json::from_str(text).unwrap()
}

fn keys_of(value: &serde_json::Value) -> Vec<String> {
    value.as_object().unwrap().keys().cloned().collect()
}

fn missing(variant: &str, field: &str) -> DecodeError {
    DecodeError::MissingField(variant.to_string(), field.to_string())
}

#[test]
fn condition_round_trip_for_every_variant() {
    let all = vec![
        Condition::Activity,
        Condition::Command("/close".to_string()),
        Condition::Label("bug".to_string()),
        Condition::PullRequest,
        Condition::Timeout(0),
        Condition::Timeout(65535),
        Condition::Command(String::new()),
    ];
    for condition in all {
        assert_eq!(Condition::decode(&condition.encode()), Ok(condition));
    }
}

#[test]
fn action_round_trip_for_every_variant() {
    let all = vec![
        Action::AddLabel("stale".to_string()),
        Action::Close,
        Action::PostComment("Thanks!\nClosing.".to_string()),
        Action::ReplaceLabel("triaged".to_string()),
        Action::RemoveLabel("stale".to_string()),
    ];
    for action in all {
        assert_eq!(Action::decode(&action.encode()), Ok(action));
    }
}

#[test]
fn condition_encoding_holds_the_tag_and_the_owned_field_only() {
    assert_eq!(keys_of(&Condition::Activity.encode()), vec!["type"]);
    assert_eq!(keys_of(&Condition::PullRequest.encode()), vec!["type"]);
    assert_eq!(keys_of(&Condition::Command("x".into()).encode()), vec!["type", "command"]);
    assert_eq!(keys_of(&Condition::Label("x".into()).encode()), vec!["type", "label"]);
    assert_eq!(keys_of(&Condition::Timeout(3).encode()), vec!["type", "timeout"]);
}

#[test]
fn action_encoding_holds_the_tag_and_the_owned_field_only() {
    assert_eq!(keys_of(&Action::Close.encode()), vec!["type"]);
    assert_eq!(keys_of(&Action::AddLabel("x".into()).encode()), vec!["type", "label"]);
    assert_eq!(keys_of(&Action::ReplaceLabel("x".into()).encode()), vec!["type", "label"]);
    assert_eq!(keys_of(&Action::RemoveLabel("x".into()).encode()), vec!["type", "label"]);
    assert_eq!(keys_of(&Action::PostComment("x".into()).encode()), vec!["type", "comment"]);
}

#[test]
fn encoded_values_are_the_expected_json() {
    assert_eq!(Condition::Timeout(10).encode(), json(r#"{"type":"timeout","timeout":10}"#));
    assert_eq!(Condition::Label("bug".into()).encode(), json(r#"{"type":"label","label":"bug"}"#));
    assert_eq!(
        Action::PostComment("hi".into()).encode(),
        json(r#"{"type":"post-comment","comment":"hi"}"#)
    );
    assert_eq!(Action::Close.encode(), json(r#"{"type":"close"}"#));
}

#[test]
fn unknown_condition_tag_is_rejected() {
    let result = Condition::decode(&json(r#"{"type":"bogus","label":"x"}"#));
    assert_eq!(result, Err(DecodeError::UnknownVariant("bogus".to_string())));
}

#[test]
fn unknown_action_tag_is_rejected() {
    let result = Action::decode(&json(r#"{"type":"reopen"}"#));
    assert_eq!(result, Err(DecodeError::UnknownVariant("reopen".to_string())));
}

#[test]
fn tags_are_compared_verbatim() {
    assert_eq!(
        Condition::decode(&json(r#"{"type":"Activity"}"#)),
        Err(DecodeError::UnknownVariant("Activity".to_string()))
    );
    assert_eq!(
        Condition::decode(&json(r#"{"type":"pull_request"}"#)),
        Err(DecodeError::UnknownVariant("pull_request".to_string()))
    );
    assert_eq!(
        Condition::decode(&json(r#"{"type":" label"}"#)),
        Err(DecodeError::UnknownVariant(" label".to_string()))
    );
    assert_eq!(
        Action::decode(&json(r#"{"type":"CLOSE"}"#)),
        Err(DecodeError::UnknownVariant("CLOSE".to_string()))
    );
    assert_eq!(
        Action::decode(&json(r#"{"type":""}"#)),
        Err(DecodeError::UnknownVariant(String::new()))
    );
}

#[test]
fn a_condition_tag_is_no_action_tag() {
    assert_eq!(
        Action::decode(&json(r#"{"type":"label","label":"x"}"#)),
        Err(DecodeError::UnknownVariant("label".to_string()))
    );
    assert_eq!(
        Condition::decode(&json(r#"{"type":"close"}"#)),
        Err(DecodeError::UnknownVariant("close".to_string()))
    );
}

#[test]
fn timeout_without_its_field_is_a_missing_field() {
    let result = Condition::decode(&json(r#"{"type":"timeout"}"#));
    assert_eq!(result, Err(missing("Timeout", "timeout")));
}

#[test]
fn every_payload_variant_reports_its_missing_field() {
    assert_eq!(Condition::decode(&json(r#"{"type":"command"}"#)), Err(missing("Command", "command")));
    assert_eq!(Condition::decode(&json(r#"{"type":"label"}"#)), Err(missing("Label", "label")));
    assert_eq!(Action::decode(&json(r#"{"type":"add-label"}"#)), Err(missing("AddLabel", "label")));
    assert_eq!(
        Action::decode(&json(r#"{"type":"post-comment"}"#)),
        Err(missing("PostComment", "comment"))
    );
    assert_eq!(
        Action::decode(&json(r#"{"type":"replace-label"}"#)),
        Err(missing("ReplaceLabel", "label"))
    );
    assert_eq!(
        Action::decode(&json(r#"{"type":"remove-label"}"#)),
        Err(missing("RemoveLabel", "label"))
    );
}

#[test]
fn a_field_of_another_variant_does_not_stand_in() {
    assert_eq!(
        Condition::decode(&json(r#"{"type":"timeout","label":"x"}"#)),
        Err(missing("Timeout", "timeout"))
    );
    assert_eq!(
        Action::decode(&json(r#"{"type":"post-comment","label":"x"}"#)),
        Err(missing("PostComment", "comment"))
    );
}

#[test]
fn a_value_without_a_tag_is_a_missing_field() {
    assert_eq!(Condition::decode(&json(r#"{"timeout":10}"#)), Err(missing("Condition", "type")));
    assert_eq!(Condition::decode(&json(r#"{"type":7}"#)), Err(missing("Condition", "type")));
    assert_eq!(Condition::decode(&json(r#""activity""#)), Err(missing("Condition", "type")));
    assert_eq!(Condition::decode(&json(r#"["activity"]"#)), Err(missing("Condition", "type")));
    assert_eq!(Action::decode(&json(r#"{}"#)), Err(missing("Action", "type")));
    assert_eq!(Action::decode(&json(r#"null"#)), Err(missing("Action", "type")));
}

#[test]
fn fields_of_other_variants_are_ignored() {
    assert_eq!(
        Condition::decode(&json(r#"{"type":"activity","label":"x","timeout":3,"extra":[1]}"#)),
        Ok(Condition::Activity)
    );
    assert_eq!(
        Condition::decode(&json(r#"{"type":"label","label":"x","timeout":"soon"}"#)),
        Ok(Condition::Label("x".to_string()))
    );
    assert_eq!(
        Action::decode(&json(r#"{"comment":"c","type":"close","label":"x"}"#)),
        Ok(Action::Close)
    );
    assert_eq!(
        Action::decode(&json(r#"{"comment":"c","type":"add-label","label":"x"}"#)),
        Ok(Action::AddLabel("x".to_string()))
    );
}

#[test]
fn a_timeout_is_a_whole_number_of_sixteen_bits() {
    assert_eq!(Condition::decode(&json(r#"{"type":"timeout","timeout":0}"#)), Ok(Condition::Timeout(0)));
    assert_eq!(
        Condition::decode(&json(r#"{"type":"timeout","timeout":65535}"#)),
        Ok(Condition::Timeout(65535))
    );
    for other in ["65536", "-1", "1.5", "\"10\"", "null", "18446744073709551616"] {
        let text = format!(r#"{{"type":"timeout","timeout":{}}}"#, other);
        assert_eq!(Condition::decode(&json(&text)), Err(missing("Timeout", "timeout")), "{}", other);
    }
}

#[test]
fn a_payload_of_the_wrong_kind_counts_as_absent() {
    assert_eq!(
        Condition::decode(&json(r#"{"type":"label","label":5}"#)),
        Err(missing("Label", "label"))
    );
    assert_eq!(
        Action::decode(&json(r#"{"type":"add-label","label":null}"#)),
        Err(missing("AddLabel", "label"))
    );
}

#[test]
fn tags_and_discriminants_correspond() {
    let conditions = [
        (ConditionType::Label, "label"),
        (ConditionType::Timeout, "timeout"),
        (ConditionType::Activity, "activity"),
        (ConditionType::PullRequest, "pull-request"),
        (ConditionType::Command, "command"),
    ];
    for (discriminant, tag) in conditions {
        assert_eq!(discriminant.tag(), tag);
        assert_eq!(ConditionType::from_tag(tag), Ok(discriminant));
    }
    let actions = [
        (ActionType::AddLabel, "add-label"),
        (ActionType::Close, "close"),
        (ActionType::PostComment, "post-comment"),
        (ActionType::ReplaceLabel, "replace-label"),
        (ActionType::RemoveLabel, "remove-label"),
    ];
    for (discriminant, tag) in actions {
        assert_eq!(discriminant.tag(), tag);
        assert_eq!(ActionType::from_tag(tag), Ok(discriminant));
    }
    assert_eq!(
        ConditionType::from_tag("labels"),
        Err(DecodeError::UnknownVariant("labels".to_string()))
    );
    assert_eq!(
        ActionType::from_tag("add_label"),
        Err(DecodeError::UnknownVariant("add_label".to_string()))
    );
}

#[test]
fn wire_fields_of_a_condition() {
    assert_eq!(
        Condition::Timeout(7).to_wire(),
        wire::Condition {
            condition_type: ConditionType::Timeout,
            label: None,
            command: None,
            timeout: Some(7),
        }
    );
    assert_eq!(
        Condition::Command("go".into()).to_wire(),
        wire::Condition {
            condition_type: ConditionType::Command,
            label: None,
            command: Some("go".to_string()),
            timeout: None,
        }
    );
    let crowded = wire::Condition {
        condition_type: ConditionType::Label,
        label: Some("bug".to_string()),
        command: Some("ignored".to_string()),
        timeout: Some(1),
    };
    assert_eq!(Condition::from_wire(crowded), Ok(Condition::Label("bug".to_string())));
    let bare = wire::Condition {
        condition_type: ConditionType::Command,
        label: Some("not a command".to_string()),
        command: None,
        timeout: None,
    };
    assert_eq!(Condition::from_wire(bare), Err(missing("Command", "command")));
}

#[test]
fn wire_fields_of_an_action() {
    assert_eq!(
        Action::RemoveLabel("stale".into()).to_wire(),
        wire::Action {
            action_type: ActionType::RemoveLabel,
            label: Some("stale".to_string()),
            comment: None,
        }
    );
    let crowded = wire::Action {
        action_type: ActionType::Close,
        label: Some("x".to_string()),
        comment: Some("y".to_string()),
    };
    assert_eq!(Action::from_wire(crowded), Ok(Action::Close));
    let bare = wire::Action { action_type: ActionType::PostComment, label: None, comment: None };
    assert_eq!(Action::from_wire(bare), Err(missing("PostComment", "comment")));
}

#[test]
fn wire_values_keep_every_field_that_is_present() {
    let fields = wire::Condition {
        condition_type: ConditionType::Activity,
        label: Some("l".to_string()),
        command: Some("c".to_string()),
        timeout: Some(9),
    };
    let value = fields.to_value();
    assert_eq!(
        serde_json::to_string(&value).unwrap(),
        r#"{"type":"activity","label":"l","command":"c","timeout":9}"#
    );
    assert_eq!(wire::Condition::from_value(&value), Ok(fields));

    let fields = wire::Action {
        action_type: ActionType::Close,
        label: Some("l".to_string()),
        comment: Some("c".to_string()),
    };
    let value = fields.to_value();
    assert_eq!(
        serde_json::to_string(&value).unwrap(),
        r#"{"type":"close","label":"l","comment":"c"}"#
    );
    assert_eq!(wire::Action::from_value(&value), Ok(fields));
}

#[test]
fn lists_decode_in_order_and_stop_at_the_first_failure() {
    let items = vec![
        json(r#"{"type":"activity"}"#),
        json(r#"{"type":"timeout","timeout":3}"#),
    ];
    assert_eq!(
        decode_list::<Condition>(&items),
        Ok(vec![Condition::Activity, Condition::Timeout(3)])
    );
    let items = vec![
        json(r#"{"type":"activity"}"#),
        json(r#"{"type":"label"}"#),
        json(r#"{"type":"bogus"}"#),
    ];
    assert_eq!(decode_list::<Condition>(&items), Err(missing("Label", "label")));
    let none: Vec<serde_json::Value> = Vec::new();
    assert_eq!(decode_list::<Action>(&none), Ok(Vec::new()));
}

#[test]
fn lists_encode_in_order() {
    let actions = vec![Action::AddLabel("a".into()), Action::Close];
    assert_eq!(
        serde_json::to_string(&encode_list(&actions)).unwrap(),
        r#"[{"type":"add-label","label":"a"},{"type":"close"}]"#
    );
    let none: Vec<Condition> = Vec::new();
    assert_eq!(serde_json::to_string(&encode_list(&none)).unwrap(), "[]");
}

fn sample_machine() -> StateMachine {
    StateMachine {
        states: vec![
            State {
                description: "Issue is open".to_string(),
                label: "open".to_string(),
                transitions: vec![
                    Transition {
                        description: "Issue is stale".to_string(),
                        conditions: vec![Condition::Timeout(10)],
                        actions: vec![Action::AddLabel("stale".to_string())],
                    },
                    Transition {
                        description: "Unconditional".to_string(),
                        conditions: vec![],
                        actions: vec![Action::Close, Action::PostComment("bye".to_string())],
                    },
                ],
            },
            State { description: String::new(), label: "done".to_string(), transitions: vec![] },
        ],
    }
}

#[test]
fn state_machine_round_trip() {
    let machine = sample_machine();
    assert_eq!(StateMachine::decode(&machine.encode()), Ok(machine));
    let empty = StateMachine { states: vec![] };
    assert_eq!(serde_json::to_string(&empty.encode()).unwrap(), r#"{"states":[]}"#);
    assert_eq!(StateMachine::decode(&empty.encode()), Ok(empty));
}

#[test]
fn document_types_encode_their_fields_in_order() {
    let transition = Transition {
        description: "d".to_string(),
        conditions: vec![Condition::Activity],
        actions: vec![Action::Close],
    };
    assert_eq!(
        serde_json::to_string(&transition.encode()).unwrap(),
        r#"{"description":"d","conditions":[{"type":"activity"}],"actions":[{"type":"close"}]}"#
    );
    let state = State {
        description: "d".to_string(),
        label: "l".to_string(),
        transitions: vec![],
    };
    assert_eq!(
        serde_json::to_string(&state.encode()).unwrap(),
        r#"{"description":"d","label":"l","transitions":[]}"#
    );
    assert_eq!(State::decode(&state.encode()), Ok(state));
    assert_eq!(Transition::decode(&transition.encode()), Ok(transition));
}

#[test]
fn document_types_report_the_first_missing_field() {
    assert_eq!(StateMachine::decode(&json(r#"{}"#)), Err(missing("StateMachine", "states")));
    assert_eq!(
        StateMachine::decode(&json(r#"{"states":{}}"#)),
        Err(missing("StateMachine", "states"))
    );
    assert_eq!(State::decode(&json(r#"{"label":"l"}"#)), Err(missing("State", "description")));
    assert_eq!(State::decode(&json(r#"{"description":"d"}"#)), Err(missing("State", "label")));
    assert_eq!(
        State::decode(&json(r#"{"description":"d","label":"l"}"#)),
        Err(missing("State", "transitions"))
    );
    assert_eq!(Transition::decode(&json(r#"{}"#)), Err(missing("Transition", "description")));
    assert_eq!(
        Transition::decode(&json(r#"{"description":"d","actions":[]}"#)),
        Err(missing("Transition", "conditions"))
    );
    assert_eq!(
        Transition::decode(&json(r#"{"description":"d","conditions":[]}"#)),
        Err(missing("Transition", "actions"))
    );
    assert_eq!(
        Transition::decode(&json(
            r#"{"description":"d","conditions":[{"type":"x"}],"actions":[{"type":"y"}]}"#
        )),
        Err(DecodeError::UnknownVariant("x".to_string()))
    );
    assert_eq!(
        StateMachine::decode(&json(
            r#"{"states":[{"description":"d","label":"l","transitions":[{"description":"t","conditions":[],"actions":[{"type":"post-comment"}]}]}]}"#
        )),
        Err(missing("PostComment", "comment"))
    );
}

#[test]
fn decode_error_messages() {
    assert_eq!(
        DecodeError::UnknownVariant("bogus".to_string()).message(),
        "unknown variant `bogus`"
    );
    assert_eq!(missing("Timeout", "timeout").message(), "missing field `timeout` of `Timeout`");
    assert_eq!(DecodeError::unknown_variant("x"), DecodeError::UnknownVariant("x".to_string()));
    assert_eq!(DecodeError::missing_field("A", "b"), missing("A", "b"));
}
