//! The state machine of an issue lifecycle, and the codec between its typed
//! conditions and actions and their tagged wire form.

use crate::codec::{
    decode_list, decoded_list, encode_list, encoded_list, lemma_list_round_trip, Codec, Decode,
    Encode,
};
use crate::error::{result_view, DecodeError, DecodeErrorView};
use crate::json::{
    keys, list_member, lookup, member_trees, object_value, optional_integer, optional_text,
    string_value, text_member, Json,
};
use crate::wire;
use crate::wire::{
    days, lemma_action_fields_round_trip, lemma_action_members_distinct,
    lemma_condition_fields_round_trip, lemma_condition_members_distinct, ActionFields, ActionType,
    ConditionFields, ConditionType,
};
use vstd::prelude::*;

verus! {

/// What must hold of an issue for a transition to fire.
#[derive(Debug, Clone, PartialEq, Eq)]
pub enum Condition {
    /// The issue was updated.
    Activity,
    /// A maintainer typed the given command in a comment.
    Command(String),
    /// The issue has the given label.
    Label(String),
    /// A pull request that resolves the issue is attached to it.
    PullRequest,
    /// The issue was not updated for the given number of days.
    Timeout(u16),
}

/// A condition as a mathematical value.
pub ghost enum ConditionView {
    Activity,
    Command(Seq<char>),
    Label(Seq<char>),
    PullRequest,
    Timeout(u16),
}

impl DeepView for Condition {
    type V = ConditionView;

    open spec fn deep_view(&self) -> ConditionView {
        match self {
            Condition::Activity => ConditionView::Activity,
            Condition::Command(command) => ConditionView::Command(command@),
            Condition::Label(label) => ConditionView::Label(label@),
            Condition::PullRequest => ConditionView::PullRequest,
            Condition::Timeout(timeout) => ConditionView::Timeout(*timeout),
        }
    }
}

impl View for Condition {
    type V = ConditionView;

    open spec fn view(&self) -> ConditionView {
        self.deep_view()
    }
}

impl ConditionView {
    /// The wire fields of a condition: its discriminant and the one payload
    /// field it owns, if any. Every other field is absent.
    pub open spec fn to_wire(self) -> ConditionFields {
        match self {
            ConditionView::Activity => ConditionFields {
                condition_type: ConditionType::Activity,
                label: None,
                command: None,
                timeout: None,
            },
            ConditionView::Command(command) => ConditionFields {
                condition_type: ConditionType::Command,
                label: None,
                command: Some(command),
                timeout: None,
            },
            ConditionView::Label(label) => ConditionFields {
                condition_type: ConditionType::Label,
                label: Some(label),
                command: None,
                timeout: None,
            },
            ConditionView::PullRequest => ConditionFields {
                condition_type: ConditionType::PullRequest,
                label: None,
                command: None,
                timeout: None,
            },
            ConditionView::Timeout(timeout) => ConditionFields {
                condition_type: ConditionType::Timeout,
                label: None,
                command: None,
                timeout: Some(timeout),
            },
        }
    }

    /// The condition that wire fields select. The discriminant picks the
    /// variant; the variant's payload field must be present, and the other
    /// fields are not looked at.
    pub open spec fn of_wire(w: ConditionFields) -> Result<ConditionView, DecodeErrorView> {
        match w.condition_type {
            ConditionType::Activity => Ok(ConditionView::Activity),
            ConditionType::Command => match w.command {
                Some(command) => Ok(ConditionView::Command(command)),
                None => Err(DecodeErrorView::MissingField("Command"@, "command"@)),
            },
            ConditionType::Label => match w.label {
                Some(label) => Ok(ConditionView::Label(label)),
                None => Err(DecodeErrorView::MissingField("Label"@, "label"@)),
            },
            ConditionType::PullRequest => Ok(ConditionView::PullRequest),
            ConditionType::Timeout => match w.timeout {
                Some(timeout) => Ok(ConditionView::Timeout(timeout)),
                None => Err(DecodeErrorView::MissingField("Timeout"@, "timeout"@)),
            },
        }
    }

    /// The names of the payload fields that the variant owns.
    pub open spec fn payload_fields(self) -> Seq<Seq<char>> {
        match self {
            ConditionView::Activity => seq![],
            ConditionView::Command(_) => seq!["command"@],
            ConditionView::Label(_) => seq!["label"@],
            ConditionView::PullRequest => seq![],
            ConditionView::Timeout(_) => seq!["timeout"@],
        }
    }

    /// The tagged object that stands for a condition on the wire.
    pub open spec fn encode(self) -> Json {
        self.to_wire().to_json()
    }

    /// The condition that a tree stands for, or why it stands for none.
    pub open spec fn decode(j: Json) -> Result<ConditionView, DecodeErrorView> {
        match ConditionFields::of_json(j) {
            Ok(w) => Self::of_wire(w),
            Err(e) => Err(e),
        }
    }
}

impl Condition {
    /// The wire fields of this condition: its discriminant and the payload
    /// field it owns. Every other field is `None`.
    pub fn to_wire(&self) -> (w: wire::Condition)
        ensures
            w@ == self@.to_wire(),
    {
        match self {
            Condition::Activity => wire::Condition {
                condition_type: ConditionType::Activity,
                label: None,
                command: None,
                timeout: None,
            },
            Condition::Command(command) => wire::Condition {
                condition_type: ConditionType::Command,
                label: None,
                command: Some(command.clone()),
                timeout: None,
            },
            Condition::Label(label) => wire::Condition {
                condition_type: ConditionType::Label,
                label: Some(label.clone()),
                command: None,
                timeout: None,
            },
            Condition::PullRequest => wire::Condition {
                condition_type: ConditionType::PullRequest,
                label: None,
                command: None,
                timeout: None,
            },
            Condition::Timeout(timeout) => wire::Condition {
                condition_type: ConditionType::Timeout,
                label: None,
                command: None,
                timeout: Some(*timeout),
            },
        }
    }

    /// The condition that wire fields select.
    ///
    /// Fails with `MissingField` exactly when the payload field of the
    /// selected variant is `None`: `("Command", "command")`,
    /// `("Label", "label")` or `("Timeout", "timeout")`. Fields that the
    /// variant does not own are ignored.
    pub fn from_wire(w: wire::Condition) -> (r: Result<Condition, DecodeError>)
        ensures
            result_view(r) == ConditionView::of_wire(w@),
    {
        match w.condition_type {
            ConditionType::Activity => Ok(Condition::Activity),
            ConditionType::Command => match w.command {
                Some(command) => Ok(Condition::Command(command)),
                None => Err(DecodeError::missing_field("Command", "command")),
            },
            ConditionType::Label => match w.label {
                Some(label) => Ok(Condition::Label(label)),
                None => Err(DecodeError::missing_field("Label", "label")),
            },
            ConditionType::PullRequest => Ok(Condition::PullRequest),
            ConditionType::Timeout => match w.timeout {
                Some(timeout) => Ok(Condition::Timeout(timeout)),
                None => Err(DecodeError::missing_field("Timeout", "timeout")),
            },
        }
    }
}

impl Encode for Condition {
    open spec fn encoded(value: ConditionView) -> Json {
        value.encode()
    }

    /// The tagged JSON object that stands for this condition: the member
    /// `type` with the variant's tag, then the variant's payload field, and
    /// nothing else.
    fn encode(&self) -> (v: serde_json::Value) {
        self.to_wire().to_value()
    }
}

impl Decode for Condition {
    open spec fn decoded(j: Json) -> Result<ConditionView, DecodeErrorView> {
        ConditionView::decode(j)
    }

    /// The condition that a tagged JSON value stands for.
    ///
    /// Fails with `UnknownVariant` when the member `type` names no
    /// condition, and with `MissingField` when `type` itself or the payload
    /// field of the named variant is absent.
    fn decode(v: &serde_json::Value) -> (r: Result<Condition, DecodeError>) {
        match wire::Condition::from_value(v) {
            Ok(w) => Condition::from_wire(w),
            Err(e) => Err(e),
        }
    }
}

impl Codec for Condition {
    proof fn lemma_round_trip(value: ConditionView) {
        lemma_condition_round_trip(value);
    }
}

/// Decoding the encoding of a condition gives the condition back.
pub proof fn lemma_condition_round_trip(c: ConditionView)
    ensures
        ConditionView::decode(c.encode()) == Ok::<ConditionView, DecodeErrorView>(c),
{
    lemma_condition_fields_round_trip(c.to_wire());
}

/// The encoding of a condition is an object whose members are the
/// discriminant `type` and the payload fields that the variant owns, each
/// once and no other.
pub proof fn lemma_condition_encoding_minimal(c: ConditionView)
    ensures
        c.encode() is Object,
        keys(c.encode()->Object_0) == seq!["type"@] + c.payload_fields(),
        keys(c.encode()->Object_0).no_duplicates(),
{
    lemma_condition_members_distinct(c.to_wire());
    let w = c.to_wire();
    assert(keys(optional_text("label"@, w.label)) =~= match w.label {
        Some(_) => seq!["label"@],
        None => seq![],
    });
    assert(keys(optional_text("command"@, w.command)) =~= match w.command {
        Some(_) => seq!["command"@],
        None => seq![],
    });
    assert(keys(optional_integer("timeout"@, days(w.timeout))) =~= match w.timeout {
        Some(_) => seq!["timeout"@],
        None => seq![],
    });
    assert(keys(w.members()) =~= seq!["type"@] + c.payload_fields());
}

/// A tree whose member `type` is a string that names no condition decodes
/// to `UnknownVariant` with that string, whatever else the tree holds.
pub proof fn lemma_unknown_condition_rejected(j: Json, tag: Seq<char>)
    requires
        j.get("type"@) == Some(Json::String(tag)),
        ConditionType::of_tag(tag) is None,
    ensures
        ConditionView::decode(j) == Err::<ConditionView, DecodeErrorView>(
            DecodeErrorView::UnknownVariant(tag),
        ),
{
}

/// What is done to an issue when a transition fires.
#[derive(Debug, Clone, PartialEq, Eq)]
pub enum Action {
    AddLabel(String),
    Close,
    PostComment(String),
    ReplaceLabel(String),
    RemoveLabel(String),
}

/// An action as a mathematical value.
pub ghost enum ActionView {
    AddLabel(Seq<char>),
    Close,
    PostComment(Seq<char>),
    ReplaceLabel(Seq<char>),
    RemoveLabel(Seq<char>),
}

impl DeepView for Action {
    type V = ActionView;

    open spec fn deep_view(&self) -> ActionView {
        match self {
            Action::AddLabel(label) => ActionView::AddLabel(label@),
            Action::Close => ActionView::Close,
            Action::PostComment(comment) => ActionView::PostComment(comment@),
            Action::ReplaceLabel(label) => ActionView::ReplaceLabel(label@),
            Action::RemoveLabel(label) => ActionView::RemoveLabel(label@),
        }
    }
}

impl View for Action {
    type V = ActionView;

    open spec fn view(&self) -> ActionView {
        self.deep_view()
    }
}

impl ActionView {
    /// The wire fields of an action: its discriminant and the one payload
    /// field it owns, if any. Every other field is absent.
    pub open spec fn to_wire(self) -> ActionFields {
        match self {
            ActionView::AddLabel(label) => ActionFields {
                action_type: ActionType::AddLabel,
                label: Some(label),
                comment: None,
            },
            ActionView::Close => ActionFields {
                action_type: ActionType::Close,
                label: None,
                comment: None,
            },
            ActionView::PostComment(comment) => ActionFields {
                action_type: ActionType::PostComment,
                label: None,
                comment: Some(comment),
            },
            ActionView::ReplaceLabel(label) => ActionFields {
                action_type: ActionType::ReplaceLabel,
                label: Some(label),
                comment: None,
            },
            ActionView::RemoveLabel(label) => ActionFields {
                action_type: ActionType::RemoveLabel,
                label: Some(label),
                comment: None,
            },
        }
    }

    /// The action that wire fields select. The discriminant picks the
    /// variant; the variant's payload field must be present, and the other
    /// fields are not looked at.
    pub open spec fn of_wire(w: ActionFields) -> Result<ActionView, DecodeErrorView> {
        match w.action_type {
            ActionType::AddLabel => match w.label {
                Some(label) => Ok(ActionView::AddLabel(label)),
                None => Err(DecodeErrorView::MissingField("AddLabel"@, "label"@)),
            },
            ActionType::Close => Ok(ActionView::Close),
            ActionType::PostComment => match w.comment {
                Some(comment) => Ok(ActionView::PostComment(comment)),
                None => Err(DecodeErrorView::MissingField("PostComment"@, "comment"@)),
            },
            ActionType::ReplaceLabel => match w.label {
                Some(label) => Ok(ActionView::ReplaceLabel(label)),
                None => Err(DecodeErrorView::MissingField("ReplaceLabel"@, "label"@)),
            },
            ActionType::RemoveLabel => match w.label {
                Some(label) => Ok(ActionView::RemoveLabel(label)),
                None => Err(DecodeErrorView::MissingField("RemoveLabel"@, "label"@)),
            },
        }
    }

    /// The names of the payload fields that the variant owns.
    pub open spec fn payload_fields(self) -> Seq<Seq<char>> {
        match self {
            ActionView::AddLabel(_) => seq!["label"@],
            ActionView::Close => seq![],
            ActionView::PostComment(_) => seq!["comment"@],
            ActionView::ReplaceLabel(_) => seq!["label"@],
            ActionView::RemoveLabel(_) => seq!["label"@],
        }
    }

    /// The tagged object that stands for an action on the wire.
    pub open spec fn encode(self) -> Json {
        self.to_wire().to_json()
    }

    /// The action that a tree stands for, or why it stands for none.
    pub open spec fn decode(j: Json) -> Result<ActionView, DecodeErrorView> {
        match ActionFields::of_json(j) {
            Ok(w) => Self::of_wire(w),
            Err(e) => Err(e),
        }
    }
}

impl Action {
    /// The wire fields of this action: its discriminant and the payload
    /// field it owns. Every other field is `None`.
    pub fn to_wire(&self) -> (w: wire::Action)
        ensures
            w@ == self@.to_wire(),
    {
        match self {
            Action::AddLabel(label) => wire::Action {
                action_type: ActionType::AddLabel,
                label: Some(label.clone()),
                comment: None,
            },
            Action::Close => wire::Action {
                action_type: ActionType::Close,
                label: None,
                comment: None,
            },
            Action::PostComment(comment) => wire::Action {
                action_type: ActionType::PostComment,
                label: None,
                comment: Some(comment.clone()),
            },
            Action::ReplaceLabel(label) => wire::Action {
                action_type: ActionType::ReplaceLabel,
                label: Some(label.clone()),
                comment: None,
            },
            Action::RemoveLabel(label) => wire::Action {
                action_type: ActionType::RemoveLabel,
                label: Some(label.clone()),
                comment: None,
            },
        }
    }

    /// The action that wire fields select.
    ///
    /// Fails with `MissingField` exactly when the payload field of the
    /// selected variant is `None`: `("AddLabel", "label")`,
    /// `("PostComment", "comment")`, `("ReplaceLabel", "label")` or
    /// `("RemoveLabel", "label")`. Fields that the variant does not own are
    /// ignored.
    pub fn from_wire(w: wire::Action) -> (r: Result<Action, DecodeError>)
        ensures
            result_view(r) == ActionView::of_wire(w@),
    {
        match w.action_type {
            ActionType::AddLabel => match w.label {
                Some(label) => Ok(Action::AddLabel(label)),
                None => Err(DecodeError::missing_field("AddLabel", "label")),
            },
            ActionType::Close => Ok(Action::Close),
            ActionType::PostComment => match w.comment {
                Some(comment) => Ok(Action::PostComment(comment)),
                None => Err(DecodeError::missing_field("PostComment", "comment")),
            },
            ActionType::ReplaceLabel => match w.label {
                Some(label) => Ok(Action::ReplaceLabel(label)),
                None => Err(DecodeError::missing_field("ReplaceLabel", "label")),
            },
            ActionType::RemoveLabel => match w.label {
                Some(label) => Ok(Action::RemoveLabel(label)),
                None => Err(DecodeError::missing_field("RemoveLabel", "label")),
            },
        }
    }
}

impl Encode for Action {
    open spec fn encoded(value: ActionView) -> Json {
        value.encode()
    }

    /// The tagged JSON object that stands for this action: the member `type`
    /// with the variant's tag, then the variant's payload field, and nothing
    /// else.
    fn encode(&self) -> (v: serde_json::Value) {
        self.to_wire().to_value()
    }
}

impl Decode for Action {
    open spec fn decoded(j: Json) -> Result<ActionView, DecodeErrorView> {
        ActionView::decode(j)
    }

    /// The action that a tagged JSON value stands for.
    ///
    /// Fails with `UnknownVariant` when the member `type` names no action,
    /// and with `MissingField` when `type` itself or the payload field of
    /// the named variant is absent.
    fn decode(v: &serde_json::Value) -> (r: Result<Action, DecodeError>) {
        match wire::Action::from_value(v) {
            Ok(w) => Action::from_wire(w),
            Err(e) => Err(e),
        }
    }
}

impl Codec for Action {
    proof fn lemma_round_trip(value: ActionView) {
        lemma_action_round_trip(value);
    }
}

/// Decoding the encoding of an action gives the action back.
pub proof fn lemma_action_round_trip(a: ActionView)
    ensures
        ActionView::decode(a.encode()) == Ok::<ActionView, DecodeErrorView>(a),
{
    lemma_action_fields_round_trip(a.to_wire());
}

/// The encoding of an action is an object whose members are the discriminant
/// `type` and the payload fields that the variant owns, each once and no
/// other.
pub proof fn lemma_action_encoding_minimal(a: ActionView)
    ensures
        a.encode() is Object,
        keys(a.encode()->Object_0) == seq!["type"@] + a.payload_fields(),
        keys(a.encode()->Object_0).no_duplicates(),
{
    lemma_action_members_distinct(a.to_wire());
    let w = a.to_wire();
    assert(keys(optional_text("label"@, w.label)) =~= match w.label {
        Some(_) => seq!["label"@],
        None => seq![],
    });
    assert(keys(optional_text("comment"@, w.comment)) =~= match w.comment {
        Some(_) => seq!["comment"@],
        None => seq![],
    });
    assert(keys(w.members()) =~= seq!["type"@] + a.payload_fields());
}

/// A tree whose member `type` is a string that names no action decodes to
/// `UnknownVariant` with that string, whatever else the tree holds.
pub proof fn lemma_unknown_action_rejected(j: Json, tag: Seq<char>)
    requires
        j.get("type"@) == Some(Json::String(tag)),
        ActionType::of_tag(tag) is None,
    ensures
        ActionView::decode(j) == Err::<ActionView, DecodeErrorView>(
            DecodeErrorView::UnknownVariant(tag),
        ),
{
}

/// A step from one state of an issue to what follows: it fires when all of
/// its conditions hold, and its actions are then carried out in order. A
/// transition without conditions is unconditional.
#[derive(Debug, Clone, PartialEq, Eq)]
pub struct Transition {
    pub description: String,
    pub conditions: Vec<Condition>,
    pub actions: Vec<Action>,
}

/// A transition as a mathematical value.
pub ghost struct TransitionView {
    pub description: Seq<char>,
    pub conditions: Seq<ConditionView>,
    pub actions: Seq<ActionView>,
}

impl DeepView for Transition {
    type V = TransitionView;

    open spec fn deep_view(&self) -> TransitionView {
        TransitionView {
            description: self.description@,
            conditions: self.conditions.deep_view(),
            actions: self.actions.deep_view(),
        }
    }
}

impl View for Transition {
    type V = TransitionView;

    open spec fn view(&self) -> TransitionView {
        self.deep_view()
    }
}

impl Decode for Transition {
    /// A transition is an object with a string `description` and the arrays
    /// `conditions` and `actions`. The fields are read in that order, and
    /// the first that is absent or does not decode gives the error.
    open spec fn decoded(j: Json) -> Result<TransitionView, DecodeErrorView> {
        match j.text("description"@) {
            None => Err(DecodeErrorView::MissingField("Transition"@, "description"@)),
            Some(description) => match j.list("conditions"@) {
                None => Err(DecodeErrorView::MissingField("Transition"@, "conditions"@)),
                Some(conditions) => match decoded_list::<Condition>(conditions) {
                    Err(e) => Err(e),
                    Ok(conditions) => match j.list("actions"@) {
                        None => Err(DecodeErrorView::MissingField("Transition"@, "actions"@)),
                        Some(actions) => match decoded_list::<Action>(actions) {
                            Err(e) => Err(e),
                            Ok(actions) => Ok(TransitionView { description, conditions, actions }),
                        },
                    },
                },
            },
        }
    }

    fn decode(v: &serde_json::Value) -> (r: Result<Transition, DecodeError>) {
        let description = match text_member(v, "description") {
            Some(description) => description.to_owned(),
            None => {
                return Err(DecodeError::missing_field("Transition", "description"));
            },
        };
        let conditions = match list_member(v, "conditions") {
            Some(items) => match decode_list::<Condition>(items) {
                Ok(conditions) => conditions,
                Err(e) => {
                    return Err(e);
                },
            },
            None => {
                return Err(DecodeError::missing_field("Transition", "conditions"));
            },
        };
        let actions = match list_member(v, "actions") {
            Some(items) => match decode_list::<Action>(items) {
                Ok(actions) => actions,
                Err(e) => {
                    return Err(e);
                },
            },
            None => {
                return Err(DecodeError::missing_field("Transition", "actions"));
            },
        };
        Ok(Transition { description, conditions, actions })
    }
}

impl TransitionView {
    /// The members of the object that stands for a transition.
    pub open spec fn members(self) -> Seq<(Seq<char>, Json)> {
        seq![
            ("description"@, Json::String(self.description)),
            ("conditions"@, Json::Array(encoded_list::<Condition>(self.conditions))),
            ("actions"@, Json::Array(encoded_list::<Action>(self.actions))),
        ]
    }
}

impl Encode for Transition {
    /// A transition is written as an object with the members `description`,
    /// `conditions` and `actions`, in that order.
    open spec fn encoded(value: TransitionView) -> Json {
        Json::Object(value.members())
    }

    fn encode(&self) -> (v: serde_json::Value) {
        let mut members: Vec<(String, serde_json::Value)> = Vec::new();
        members.push(("description".to_owned(), string_value(self.description.as_str())));
        members.push(("conditions".to_owned(), encode_list::<Condition>(&self.conditions)));
        members.push(("actions".to_owned(), encode_list::<Action>(&self.actions)));
        proof {
            lemma_transition_members_distinct();
            assert(member_trees(members@) =~= self@.members());
        }
        object_value(members)
    }
}

impl Codec for Transition {
    proof fn lemma_round_trip(value: TransitionView) {
        lemma_transition_members_distinct();
        reveal_with_fuel(lookup, 4);
        lemma_list_round_trip::<Condition>(value.conditions);
        lemma_list_round_trip::<Action>(value.actions);
    }
}

/// The names of the members of a transition differ from one another.
proof fn lemma_transition_members_distinct()
    ensures
        "description"@ != "conditions"@,
        "description"@ != "actions"@,
        "conditions"@ != "actions"@,
        forall|t: TransitionView| #[trigger] keys(t.members()).no_duplicates(),
{
    reveal_strlit("description");
    reveal_strlit("conditions");
    reveal_strlit("actions");
    assert("description"@.len() == 11);
    assert("conditions"@.len() == 10);
    assert("actions"@.len() == 7);
    assert forall|t: TransitionView| #[trigger] keys(t.members()).no_duplicates() by {
        assert(keys(t.members()) =~= seq!["description"@, "conditions"@, "actions"@]);
    }
}

/// A state of an issue, known by its label, with the transitions that lead
/// out of it.
#[derive(Debug, Clone, PartialEq, Eq)]
pub struct State {
    pub description: String,
    pub label: String,
    pub transitions: Vec<Transition>,
}

/// A state as a mathematical value.
pub ghost struct StateView {
    pub description: Seq<char>,
    pub label: Seq<char>,
    pub transitions: Seq<TransitionView>,
}

impl DeepView for State {
    type V = StateView;

    open spec fn deep_view(&self) -> StateView {
        StateView {
            description: self.description@,
            label: self.label@,
            transitions: self.transitions.deep_view(),
        }
    }
}

impl View for State {
    type V = StateView;

    open spec fn view(&self) -> StateView {
        self.deep_view()
    }
}

impl Decode for State {
    /// A state is an object with the strings `description` and `label` and
    /// the array `transitions`. The fields are read in that order, and the
    /// first that is absent or does not decode gives the error.
    open spec fn decoded(j: Json) -> Result<StateView, DecodeErrorView> {
        match j.text("description"@) {
            None => Err(DecodeErrorView::MissingField("State"@, "description"@)),
            Some(description) => match j.text("label"@) {
                None => Err(DecodeErrorView::MissingField("State"@, "label"@)),
                Some(label) => match j.list("transitions"@) {
                    None => Err(DecodeErrorView::MissingField("State"@, "transitions"@)),
                    Some(transitions) => match decoded_list::<Transition>(transitions) {
                        Err(e) => Err(e),
                        Ok(transitions) => Ok(StateView { description, label, transitions }),
                    },
                },
            },
        }
    }

    fn decode(v: &serde_json::Value) -> (r: Result<State, DecodeError>) {
        let description = match text_member(v, "description") {
            Some(description) => description.to_owned(),
            None => {
                return Err(DecodeError::missing_field("State", "description"));
            },
        };
        let label = match text_member(v, "label") {
            Some(label) => label.to_owned(),
            None => {
                return Err(DecodeError::missing_field("State", "label"));
            },
        };
        let transitions = match list_member(v, "transitions") {
            Some(items) => match decode_list::<Transition>(items) {
                Ok(transitions) => transitions,
                Err(e) => {
                    return Err(e);
                },
            },
            None => {
                return Err(DecodeError::missing_field("State", "transitions"));
            },
        };
        Ok(State { description, label, transitions })
    }
}

impl StateView {
    /// The members of the object that stands for a state.
    pub open spec fn members(self) -> Seq<(Seq<char>, Json)> {
        seq![
            ("description"@, Json::String(self.description)),
            ("label"@, Json::String(self.label)),
            ("transitions"@, Json::Array(encoded_list::<Transition>(self.transitions))),
        ]
    }
}

impl Encode for State {
    /// A state is written as an object with the members `description`,
    /// `label` and `transitions`, in that order.
    open spec fn encoded(value: StateView) -> Json {
        Json::Object(value.members())
    }

    fn encode(&self) -> (v: serde_json::Value) {
        let mut members: Vec<(String, serde_json::Value)> = Vec::new();
        members.push(("description".to_owned(), string_value(self.description.as_str())));
        members.push(("label".to_owned(), string_value(self.label.as_str())));
        members.push(("transitions".to_owned(), encode_list::<Transition>(&self.transitions)));
        proof {
            lemma_state_members_distinct();
            assert(member_trees(members@) =~= self@.members());
        }
        object_value(members)
    }
}

impl Codec for State {
    proof fn lemma_round_trip(value: StateView) {
        lemma_state_members_distinct();
        reveal_with_fuel(lookup, 4);
        lemma_list_round_trip::<Transition>(value.transitions);
    }
}

/// The names of the members of a state differ from one another.
proof fn lemma_state_members_distinct()
    ensures
        "description"@ != "label"@,
        "description"@ != "transitions"@,
        "label"@ != "transitions"@,
        forall|s: StateView| #[trigger] keys(s.members()).no_duplicates(),
{
    reveal_strlit("description");
    reveal_strlit("label");
    reveal_strlit("transitions");
    assert("description"@.len() == 11 && "description"@[0] == 'd');
    assert("label"@.len() == 5);
    assert("transitions"@.len() == 11 && "transitions"@[0] == 't');
    assert forall|s: StateView| #[trigger] keys(s.members()).no_duplicates() by {
        assert(keys(s.members()) =~= seq!["description"@, "label"@, "transitions"@]);
    }
}

/// The whole lifecycle: its states, in the order of the document. A state is
/// known by its label; nothing here requires the labels of a document to
/// differ from one another.
#[derive(Debug, Clone, PartialEq, Eq)]
pub struct StateMachine {
    pub states: Vec<State>,
}

/// A state machine as a mathematical value.
pub ghost struct StateMachineView {
    pub states: Seq<StateView>,
}

impl DeepView for StateMachine {
    type V = StateMachineView;

    open spec fn deep_view(&self) -> StateMachineView {
        StateMachineView { states: self.states.deep_view() }
    }
}

impl View for StateMachine {
    type V = StateMachineView;

    open spec fn view(&self) -> StateMachineView {
        self.deep_view()
    }
}

impl Decode for StateMachine {
    /// A state machine is an object with the array `states`.
    open spec fn decoded(j: Json) -> Result<StateMachineView, DecodeErrorView> {
        match j.list("states"@) {
            None => Err(DecodeErrorView::MissingField("StateMachine"@, "states"@)),
            Some(states) => match decoded_list::<State>(states) {
                Err(e) => Err(e),
                Ok(states) => Ok(StateMachineView { states }),
            },
        }
    }

    fn decode(v: &serde_json::Value) -> (r: Result<StateMachine, DecodeError>) {
        match list_member(v, "states") {
            Some(items) => match decode_list::<State>(items) {
                Ok(states) => Ok(StateMachine { states }),
                Err(e) => Err(e),
            },
            None => Err(DecodeError::missing_field("StateMachine", "states")),
        }
    }
}

impl StateMachineView {
    /// The members of the object that stands for a state machine.
    pub open spec fn members(self) -> Seq<(Seq<char>, Json)> {
        seq![("states"@, Json::Array(encoded_list::<State>(self.states)))]
    }
}

impl Encode for StateMachine {
    /// A state machine is written as an object with the one member
    /// `states`.
    open spec fn encoded(value: StateMachineView) -> Json {
        Json::Object(value.members())
    }

    fn encode(&self) -> (v: serde_json::Value) {
        let mut members: Vec<(String, serde_json::Value)> = Vec::new();
        members.push(("states".to_owned(), encode_list::<State>(&self.states)));
        proof {
            assert(member_trees(members@) =~= self@.members());
            assert(keys(self@.members()) =~= seq!["states"@]);
        }
        object_value(members)
    }
}

impl Codec for StateMachine {
    proof fn lemma_round_trip(value: StateMachineView) {
        reveal_with_fuel(lookup, 2);
        lemma_list_round_trip::<State>(value.states);
    }
}

/// Decoding the encoding of a state machine gives the state machine back.
pub proof fn lemma_state_machine_round_trip(machine: StateMachineView)
    ensures
        StateMachine::decoded(StateMachine::encoded(machine)) == Ok::<
            StateMachineView,
            DecodeErrorView,
        >(machine),
{
    StateMachine::lemma_round_trip(machine);
}

} // verus!
