//! The flat wire shape of conditions and actions: a discriminant `type` and
//! the payload fields of all variants, each optional.

use crate::error::{result_view, DecodeError, DecodeErrorView};
use crate::json::{
    json_of, keys, lemma_lookup_concat, lemma_lookup_optional_integer,
    lemma_lookup_optional_text, lookup, member_trees, object_value, optional_integer,
    optional_text, string_value, text_member, unsigned_member, unsigned_value, Json,
};
use vstd::prelude::*;

verus! {

/// The discriminant of a condition.
#[derive(Debug, Clone, Copy, PartialEq, Eq, Structural)]
pub enum ConditionType {
    Label,
    Timeout,
    Activity,
    PullRequest,
    Command,
}

impl ConditionType {
    /// The tag that stands for this discriminant on the wire.
    pub open spec fn tag_spec(self) -> Seq<char> {
        match self {
            ConditionType::Label => "label"@,
            ConditionType::Timeout => "timeout"@,
            ConditionType::Activity => "activity"@,
            ConditionType::PullRequest => "pull-request"@,
            ConditionType::Command => "command"@,
        }
    }

    /// The discriminant that a tag names, compared verbatim.
    pub open spec fn of_tag(tag: Seq<char>) -> Option<ConditionType> {
        if tag == "label"@ {
            Some(ConditionType::Label)
        } else if tag == "timeout"@ {
            Some(ConditionType::Timeout)
        } else if tag == "activity"@ {
            Some(ConditionType::Activity)
        } else if tag == "pull-request"@ {
            Some(ConditionType::PullRequest)
        } else if tag == "command"@ {
            Some(ConditionType::Command)
        } else {
            None
        }
    }

    /// The tag that stands for this discriminant on the wire.
    pub fn tag(&self) -> (r: &'static str)
        ensures
            r@ == self.tag_spec(),
    {
        match self {
            ConditionType::Label => "label",
            ConditionType::Timeout => "timeout",
            ConditionType::Activity => "activity",
            ConditionType::PullRequest => "pull-request",
            ConditionType::Command => "command",
        }
    }

    /// Resolves a tag. A tag that names no condition is rejected as an
    /// unknown variant.
    pub fn from_tag(tag: &str) -> (r: Result<ConditionType, DecodeError>)
        ensures
            match r {
                Ok(t) => Self::of_tag(tag@) == Some(t),
                Err(e) => Self::of_tag(tag@) is None && e@ == DecodeErrorView::UnknownVariant(
                    tag@,
                ),
            },
    {
        if tag.eq("label") {
            Ok(ConditionType::Label)
        } else if tag.eq("timeout") {
            Ok(ConditionType::Timeout)
        } else if tag.eq("activity") {
            Ok(ConditionType::Activity)
        } else if tag.eq("pull-request") {
            Ok(ConditionType::PullRequest)
        } else if tag.eq("command") {
            Ok(ConditionType::Command)
        } else {
            Err(DecodeError::unknown_variant(tag))
        }
    }
}

/// The discriminant of an action.
#[derive(Debug, Clone, Copy, PartialEq, Eq, Structural)]
pub enum ActionType {
    AddLabel,
    Close,
    PostComment,
    ReplaceLabel,
    RemoveLabel,
}

impl ActionType {
    /// The tag that stands for this discriminant on the wire.
    pub open spec fn tag_spec(self) -> Seq<char> {
        match self {
            ActionType::AddLabel => "add-label"@,
            ActionType::Close => "close"@,
            ActionType::PostComment => "post-comment"@,
            ActionType::ReplaceLabel => "replace-label"@,
            ActionType::RemoveLabel => "remove-label"@,
        }
    }

    /// The discriminant that a tag names, compared verbatim.
    pub open spec fn of_tag(tag: Seq<char>) -> Option<ActionType> {
        if tag == "add-label"@ {
            Some(ActionType::AddLabel)
        } else if tag == "close"@ {
            Some(ActionType::Close)
        } else if tag == "post-comment"@ {
            Some(ActionType::PostComment)
        } else if tag == "replace-label"@ {
            Some(ActionType::ReplaceLabel)
        } else if tag == "remove-label"@ {
            Some(ActionType::RemoveLabel)
        } else {
            None
        }
    }

    /// The tag that stands for this discriminant on the wire.
    pub fn tag(&self) -> (r: &'static str)
        ensures
            r@ == self.tag_spec(),
    {
        match self {
            ActionType::AddLabel => "add-label",
            ActionType::Close => "close",
            ActionType::PostComment => "post-comment",
            ActionType::ReplaceLabel => "replace-label",
            ActionType::RemoveLabel => "remove-label",
        }
    }

    /// Resolves a tag. A tag that names no action is rejected as an unknown
    /// variant.
    pub fn from_tag(tag: &str) -> (r: Result<ActionType, DecodeError>)
        ensures
            match r {
                Ok(t) => Self::of_tag(tag@) == Some(t),
                Err(e) => Self::of_tag(tag@) is None && e@ == DecodeErrorView::UnknownVariant(
                    tag@,
                ),
            },
    {
        if tag.eq("add-label") {
            Ok(ActionType::AddLabel)
        } else if tag.eq("close") {
            Ok(ActionType::Close)
        } else if tag.eq("post-comment") {
            Ok(ActionType::PostComment)
        } else if tag.eq("replace-label") {
            Ok(ActionType::ReplaceLabel)
        } else if tag.eq("remove-label") {
            Ok(ActionType::RemoveLabel)
        } else {
            Err(DecodeError::unknown_variant(tag))
        }
    }
}

/// A condition as it travels: the discriminant and every payload field that
/// some condition has.
#[derive(Debug, Clone, PartialEq, Eq)]
pub struct Condition {
    pub condition_type: ConditionType,
    pub label: Option<String>,
    pub command: Option<String>,
    pub timeout: Option<u16>,
}

/// The wire fields of a condition as mathematical values.
pub ghost struct ConditionFields {
    pub condition_type: ConditionType,
    pub label: Option<Seq<char>>,
    pub command: Option<Seq<char>>,
    pub timeout: Option<u16>,
}

impl DeepView for Condition {
    type V = ConditionFields;

    open spec fn deep_view(&self) -> ConditionFields {
        ConditionFields {
            condition_type: self.condition_type,
            label: self.label.deep_view(),
            command: self.command.deep_view(),
            timeout: self.timeout,
        }
    }
}

impl View for Condition {
    type V = ConditionFields;

    open spec fn view(&self) -> ConditionFields {
        self.deep_view()
    }
}

/// The number of a timeout as a JSON integer.
pub open spec fn days(timeout: Option<u16>) -> Option<int> {
    match timeout {
        Some(n) => Some(n as int),
        None => None,
    }
}

impl ConditionFields {
    /// The members of the object that carries these fields: `type` first,
    /// then each payload field that is present.
    pub open spec fn members(self) -> Seq<(Seq<char>, Json)> {
        seq![("type"@, Json::String(self.condition_type.tag_spec()))] + optional_text(
            "label"@,
            self.label,
        ) + optional_text("command"@, self.command) + optional_integer(
            "timeout"@,
            days(self.timeout),
        )
    }

    /// The object that carries these fields.
    pub open spec fn to_json(self) -> Json {
        Json::Object(self.members())
    }

    /// The fields that a tree carries. The member `type` must be a string
    /// that names a condition. A payload field is present when the tree has
    /// a member of its name that holds a value of its kind: a string for
    /// `label` and `command`, an integer from 0 to 65535 for `timeout`.
    pub open spec fn of_json(j: Json) -> Result<ConditionFields, DecodeErrorView> {
        match j.text("type"@) {
            None => Err(DecodeErrorView::MissingField("Condition"@, "type"@)),
            Some(tag) => match ConditionType::of_tag(tag) {
                None => Err(DecodeErrorView::UnknownVariant(tag)),
                Some(condition_type) => Ok(
                    ConditionFields {
                        condition_type,
                        label: j.text("label"@),
                        command: j.text("command"@),
                        timeout: match j.unsigned("timeout"@, 65535) {
                            Some(n) => Some(n as u16),
                            None => None,
                        },
                    },
                ),
            },
        }
    }
}

/// The owned copy of an optional text.
fn owned(text: Option<&str>) -> (r: Option<String>)
    ensures
        r.deep_view() == match text {
            Some(s) => Some(s@),
            None => None,
        },
{
    match text {
        Some(s) => Some(s.to_owned()),
        None => None,
    }
}

impl Condition {
    /// Builds the JSON object that carries these fields: `type` with the
    /// tag, then `label`, `command` and `timeout` where present, and no
    /// other member.
    pub fn to_value(&self) -> (v: serde_json::Value)
        ensures
            json_of(v) == self@.to_json(),
    {
        let mut members: Vec<(String, serde_json::Value)> = Vec::new();
        members.push(("type".to_owned(), string_value(self.condition_type.tag())));
        assert(member_trees(members@) =~= seq![
            ("type"@, Json::String(self.condition_type.tag_spec())),
        ]);
        let ghost before = member_trees(members@);
        if let Some(label) = &self.label {
            members.push(("label".to_owned(), string_value(label.as_str())));
        }
        assert(member_trees(members@) =~= before + optional_text("label"@, self@.label));
        let ghost before = member_trees(members@);
        if let Some(command) = &self.command {
            members.push(("command".to_owned(), string_value(command.as_str())));
        }
        assert(member_trees(members@) =~= before + optional_text("command"@, self@.command));
        let ghost before = member_trees(members@);
        if let Some(timeout) = self.timeout {
            members.push(("timeout".to_owned(), unsigned_value(timeout as u64)));
        }
        assert(member_trees(members@) =~= before + optional_integer(
            "timeout"@,
            days(self@.timeout),
        ));
        proof {
            lemma_condition_members_distinct(self@);
        }
        object_value(members)
    }

    /// Reads the fields that a JSON value carries.
    ///
    /// Fails with `MissingField("Condition", "type")` when the value has no
    /// string member `type`, and with `UnknownVariant` when that string
    /// names no condition. Members that hold no payload field are ignored.
    pub fn from_value(v: &serde_json::Value) -> (r: Result<Condition, DecodeError>)
        ensures
            result_view(r) == ConditionFields::of_json(json_of(*v)),
    {
        let tag = match text_member(v, "type") {
            Some(tag) => tag,
            None => {
                return Err(DecodeError::missing_field("Condition", "type"));
            },
        };
        let condition_type = match ConditionType::from_tag(tag) {
            Ok(condition_type) => condition_type,
            Err(e) => {
                return Err(e);
            },
        };
        let timeout = match unsigned_member(v, "timeout", 65535) {
            Some(n) => Some(n as u16),
            None => None,
        };
        Ok(
            Condition {
                condition_type,
                label: owned(text_member(v, "label")),
                command: owned(text_member(v, "command")),
                timeout,
            },
        )
    }
}

/// The names of the members that carry a condition differ from one another.
pub proof fn lemma_condition_members_distinct(w: ConditionFields)
    ensures
        keys(w.members()).no_duplicates(),
        keys(w.members()) == seq!["type"@] + keys(optional_text("label"@, w.label)) + keys(
            optional_text("command"@, w.command),
        ) + keys(optional_integer("timeout"@, days(w.timeout))),
{
    reveal_strlit("type");
    reveal_strlit("label");
    reveal_strlit("command");
    reveal_strlit("timeout");
    assert("type"@.len() == 4);
    assert("label"@.len() == 5);
    assert("command"@.len() == 7 && "command"@[0] == 'c');
    assert("timeout"@.len() == 7 && "timeout"@[0] == 't');
    assert(keys(w.members()) =~= seq!["type"@] + keys(optional_text("label"@, w.label)) + keys(
        optional_text("command"@, w.command),
    ) + keys(optional_integer("timeout"@, days(w.timeout))));
}

/// Reading the object that carries some fields gives those fields back.
pub proof fn lemma_condition_fields_round_trip(w: ConditionFields)
    ensures
        ConditionFields::of_json(w.to_json()) == Ok::<ConditionFields, DecodeErrorView>(w),
{
    reveal_strlit("type");
    reveal_strlit("label");
    reveal_strlit("command");
    reveal_strlit("timeout");
    assert("type"@.len() == 4);
    assert("label"@.len() == 5);
    assert("command"@.len() == 7 && "command"@[0] == 'c');
    assert("timeout"@.len() == 7 && "timeout"@[0] == 't');
    lemma_condition_tag_resolves(w.condition_type);
    let head = seq![("type"@, Json::String(w.condition_type.tag_spec()))];
    let label = optional_text("label"@, w.label);
    let command = optional_text("command"@, w.command);
    let timeout = optional_integer("timeout"@, days(w.timeout));
    assert forall|key: Seq<char>|
        #![trigger lookup(w.members(), key)]
        lookup(w.members(), key) == (if key == "type"@ {
            Some(Json::String(w.condition_type.tag_spec()))
        } else {
            match lookup(label, key) {
                Some(value) => Some(value),
                None => match lookup(command, key) {
                    Some(value) => Some(value),
                    None => lookup(timeout, key),
                },
            }
        }) by {
        lemma_lookup_concat(head + label + command, timeout, key);
        lemma_lookup_concat(head + label, command, key);
        lemma_lookup_concat(head, label, key);
        reveal_with_fuel(lookup, 2);
    }
    assert forall|key: Seq<char>| key == "label"@ || key == "command"@ || key == "timeout"@ implies {
        &&& lookup(label, key) == (match w.label {
            Some(s) if key == "label"@ => Some(Json::String(s)),
            _ => None,
        })
        &&& lookup(command, key) == (match w.command {
            Some(s) if key == "command"@ => Some(Json::String(s)),
            _ => None,
        })
        &&& lookup(timeout, key) == (match w.timeout {
            Some(n) if key == "timeout"@ => Some(Json::Integer(n as int)),
            _ => None,
        })
    } by {
        lemma_lookup_optional_text("label"@, w.label, key);
        lemma_lookup_optional_text("command"@, w.command, key);
        lemma_lookup_optional_integer("timeout"@, days(w.timeout), key);
    }
}

/// The tags of the conditions differ from one another: a tag names a
/// discriminant exactly when it is that discriminant's own tag.
pub proof fn lemma_condition_tag_resolves(t: ConditionType)
    ensures
        ConditionType::of_tag(t.tag_spec()) == Some(t),
        forall|tag: Seq<char>| ConditionType::of_tag(tag) == Some(t) <==> tag == t.tag_spec(),
{
    reveal_strlit("label");
    reveal_strlit("timeout");
    reveal_strlit("activity");
    reveal_strlit("pull-request");
    reveal_strlit("command");
    assert("label"@.len() == 5);
    assert("timeout"@.len() == 7);
    assert("activity"@.len() == 8);
    assert("pull-request"@.len() == 12);
    assert("command"@.len() == 7);
    assert("timeout"@[0] == 't');
    assert("command"@[0] == 'c');
}

/// An action as it travels: the discriminant and every payload field that
/// some action has.
#[derive(Debug, Clone, PartialEq, Eq)]
pub struct Action {
    pub action_type: ActionType,
    pub label: Option<String>,
    pub comment: Option<String>,
}

/// The wire fields of an action as mathematical values.
pub ghost struct ActionFields {
    pub action_type: ActionType,
    pub label: Option<Seq<char>>,
    pub comment: Option<Seq<char>>,
}

impl DeepView for Action {
    type V = ActionFields;

    open spec fn deep_view(&self) -> ActionFields {
        ActionFields {
            action_type: self.action_type,
            label: self.label.deep_view(),
            comment: self.comment.deep_view(),
        }
    }
}

impl View for Action {
    type V = ActionFields;

    open spec fn view(&self) -> ActionFields {
        self.deep_view()
    }
}

impl ActionFields {
    /// The members of the object that carries these fields: `type` first,
    /// then each payload field that is present.
    pub open spec fn members(self) -> Seq<(Seq<char>, Json)> {
        seq![("type"@, Json::String(self.action_type.tag_spec()))] + optional_text(
            "label"@,
            self.label,
        ) + optional_text("comment"@, self.comment)
    }

    /// The object that carries these fields.
    pub open spec fn to_json(self) -> Json {
        Json::Object(self.members())
    }

    /// The fields that a tree carries. The member `type` must be a string
    /// that names an action. A payload field is present when the tree has a
    /// string member of its name.
    pub open spec fn of_json(j: Json) -> Result<ActionFields, DecodeErrorView> {
        match j.text("type"@) {
            None => Err(DecodeErrorView::MissingField("Action"@, "type"@)),
            Some(tag) => match ActionType::of_tag(tag) {
                None => Err(DecodeErrorView::UnknownVariant(tag)),
                Some(action_type) => Ok(
                    ActionFields {
                        action_type,
                        label: j.text("label"@),
                        comment: j.text("comment"@),
                    },
                ),
            },
        }
    }
}

impl Action {
    /// Builds the JSON object that carries these fields: `type` with the
    /// tag, then `label` and `comment` where present, and no other member.
    pub fn to_value(&self) -> (v: serde_json::Value)
        ensures
            json_of(v) == self@.to_json(),
    {
        let mut members: Vec<(String, serde_json::Value)> = Vec::new();
        members.push(("type".to_owned(), string_value(self.action_type.tag())));
        assert(member_trees(members@) =~= seq![
            ("type"@, Json::String(self.action_type.tag_spec())),
        ]);
        let ghost before = member_trees(members@);
        if let Some(label) = &self.label {
            members.push(("label".to_owned(), string_value(label.as_str())));
        }
        assert(member_trees(members@) =~= before + optional_text("label"@, self@.label));
        let ghost before = member_trees(members@);
        if let Some(comment) = &self.comment {
            members.push(("comment".to_owned(), string_value(comment.as_str())));
        }
        assert(member_trees(members@) =~= before + optional_text("comment"@, self@.comment));
        proof {
            lemma_action_members_distinct(self@);
        }
        object_value(members)
    }

    /// Reads the fields that a JSON value carries.
    ///
    /// Fails with `MissingField("Action", "type")` when the value has no
    /// string member `type`, and with `UnknownVariant` when that string
    /// names no action. Members that hold no payload field are ignored.
    pub fn from_value(v: &serde_json::Value) -> (r: Result<Action, DecodeError>)
        ensures
            result_view(r) == ActionFields::of_json(json_of(*v)),
    {
        let tag = match text_member(v, "type") {
            Some(tag) => tag,
            None => {
                return Err(DecodeError::missing_field("Action", "type"));
            },
        };
        let action_type = match ActionType::from_tag(tag) {
            Ok(action_type) => action_type,
            Err(e) => {
                return Err(e);
            },
        };
        Ok(
            Action {
                action_type,
                label: owned(text_member(v, "label")),
                comment: owned(text_member(v, "comment")),
            },
        )
    }
}

/// The names of the members that carry an action differ from one another.
pub proof fn lemma_action_members_distinct(w: ActionFields)
    ensures
        keys(w.members()).no_duplicates(),
        keys(w.members()) == seq!["type"@] + keys(optional_text("label"@, w.label)) + keys(
            optional_text("comment"@, w.comment),
        ),
{
    reveal_strlit("type");
    reveal_strlit("label");
    reveal_strlit("comment");
    assert("type"@.len() == 4);
    assert("label"@.len() == 5);
    assert("comment"@.len() == 7);
    assert(keys(w.members()) =~= seq!["type"@] + keys(optional_text("label"@, w.label)) + keys(
        optional_text("comment"@, w.comment),
    ));
}

/// Reading the object that carries some fields gives those fields back.
pub proof fn lemma_action_fields_round_trip(w: ActionFields)
    ensures
        ActionFields::of_json(w.to_json()) == Ok::<ActionFields, DecodeErrorView>(w),
{
    reveal_strlit("type");
    reveal_strlit("label");
    reveal_strlit("comment");
    assert("type"@.len() == 4);
    assert("label"@.len() == 5);
    assert("comment"@.len() == 7);
    lemma_action_tag_resolves(w.action_type);
    let head = seq![("type"@, Json::String(w.action_type.tag_spec()))];
    let label = optional_text("label"@, w.label);
    let comment = optional_text("comment"@, w.comment);
    assert forall|key: Seq<char>|
        #![trigger lookup(w.members(), key)]
        lookup(w.members(), key) == (if key == "type"@ {
            Some(Json::String(w.action_type.tag_spec()))
        } else {
            match lookup(label, key) {
                Some(value) => Some(value),
                None => lookup(comment, key),
            }
        }) by {
        lemma_lookup_concat(head + label, comment, key);
        lemma_lookup_concat(head, label, key);
        reveal_with_fuel(lookup, 2);
    }
    assert forall|key: Seq<char>| key == "label"@ || key == "comment"@ implies {
        &&& lookup(label, key) == (match w.label {
            Some(s) if key == "label"@ => Some(Json::String(s)),
            _ => None,
        })
        &&& lookup(comment, key) == (match w.comment {
            Some(s) if key == "comment"@ => Some(Json::String(s)),
            _ => None,
        })
    } by {
        lemma_lookup_optional_text("label"@, w.label, key);
        lemma_lookup_optional_text("comment"@, w.comment, key);
    }
}

/// The tags of the actions differ from one another: a tag names a
/// discriminant exactly when it is that discriminant's own tag.
pub proof fn lemma_action_tag_resolves(t: ActionType)
    ensures
        ActionType::of_tag(t.tag_spec()) == Some(t),
        forall|tag: Seq<char>| ActionType::of_tag(tag) == Some(t) <==> tag == t.tag_spec(),
{
    reveal_strlit("add-label");
    reveal_strlit("close");
    reveal_strlit("post-comment");
    reveal_strlit("replace-label");
    reveal_strlit("remove-label");
    assert("add-label"@.len() == 9);
    assert("close"@.len() == 5);
    assert("post-comment"@.len() == 12);
    assert("replace-label"@.len() == 13);
    assert("remove-label"@.len() == 12 && "remove-label"@[0] == 'r');
    assert("post-comment"@[0] == 'p');
}

} // verus!
