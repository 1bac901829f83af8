//! The errors of decoding and loading.

use vstd::prelude::*;
use vstd::string::StringExecFns;

verus! {

/// Why a tagged value could not be decoded into a typed variant.
#[derive(Debug, Clone, PartialEq, Eq)]
pub enum DecodeError {
    /// The discriminant is not one of the family's tags. Holds the tag.
    UnknownVariant(String),
    /// A field that the variant requires is absent. Holds the name of the
    /// variant and the name of the field.
    MissingField(String, String),
}

/// A decode error with its texts as sequences of characters.
pub ghost enum DecodeErrorView {
    UnknownVariant(Seq<char>),
    MissingField(Seq<char>, Seq<char>),
}

impl DeepView for DecodeError {
    type V = DecodeErrorView;

    open spec fn deep_view(&self) -> DecodeErrorView {
        match self {
            DecodeError::UnknownVariant(tag) => DecodeErrorView::UnknownVariant(tag@),
            DecodeError::MissingField(variant, field) => DecodeErrorView::MissingField(
                variant@,
                field@,
            ),
        }
    }
}

impl View for DecodeError {
    type V = DecodeErrorView;

    open spec fn view(&self) -> DecodeErrorView {
        self.deep_view()
    }
}

/// The view of a result: the view of its value or of its error.
pub open spec fn result_view<T: DeepView, E: DeepView>(r: Result<T, E>) -> Result<T::V, E::V> {
    match r {
        Ok(value) => Ok(value.deep_view()),
        Err(error) => Err(error.deep_view()),
    }
}

impl DecodeError {
    /// The error for a tag that names no variant.
    pub fn unknown_variant(tag: &str) -> (e: DecodeError)
        ensures
            e@ == DecodeErrorView::UnknownVariant(tag@),
    {
        DecodeError::UnknownVariant(tag.to_owned())
    }

    /// The error for a variant that lacks one of its fields.
    pub fn missing_field(variant: &str, field: &str) -> (e: DecodeError)
        ensures
            e@ == DecodeErrorView::MissingField(variant@, field@),
    {
        DecodeError::MissingField(variant.to_owned(), field.to_owned())
    }
}

impl DecodeErrorView {
    /// The text that describes the error.
    pub open spec fn message(self) -> Seq<char> {
        match self {
            DecodeErrorView::UnknownVariant(tag) => "unknown variant `"@ + tag + "`"@,
            DecodeErrorView::MissingField(variant, field) => "missing field `"@ + field
                + "` of `"@ + variant + "`"@,
        }
    }
}

impl DecodeError {
    /// A description of the error for people to read.
    pub fn message(&self) -> (text: String)
        ensures
            text@ == self@.message(),
    {
        match self {
            DecodeError::UnknownVariant(tag) => {
                let mut text = "unknown variant `".to_owned();
                text.append(tag.as_str());
                text.append("`");
                text
            },
            DecodeError::MissingField(variant, field) => {
                let mut text = "missing field `".to_owned();
                text.append(field.as_str());
                text.append("` of `");
                text.append(variant.as_str());
                text.append("`");
                text
            },
        }
    }
}

/// One place where a document breaks the schema.
#[derive(Debug, Clone, PartialEq, Eq)]
pub struct Violation {
    /// The path into the document, as a JSON pointer; empty for the root.
    pub path: String,
    /// What is wrong there.
    pub reason: String,
}

/// A violation with its texts as sequences of characters.
pub ghost struct ViolationView {
    pub path: Seq<char>,
    pub reason: Seq<char>,
}

impl DeepView for Violation {
    type V = ViolationView;

    open spec fn deep_view(&self) -> ViolationView {
        ViolationView { path: self.path@, reason: self.reason@ }
    }
}

impl View for Violation {
    type V = ViolationView;

    open spec fn view(&self) -> ViolationView {
        self.deep_view()
    }
}

impl Violation {
    /// A violation at `path`, for the given reason.
    pub fn new(path: String, reason: String) -> (v: Violation)
        ensures
            v@ == (ViolationView { path: path@, reason: reason@ }),
    {
        Violation { path, reason }
    }
}

/// Why a configuration could not be loaded.
#[derive(Debug, Clone, PartialEq, Eq)]
pub enum ConfigError {
    /// The source could not be read. Holds the message of the failure.
    Io(String),
    /// The source is not well-formed. Holds the parser's diagnostic.
    Parse(String),
    /// The schema itself could not be parsed or compiled.
    SchemaLoading(String),
    /// The document breaks the schema. Holds every violation, in the order
    /// in which validation reported them. Validation never fails with an
    /// empty list.
    SchemaValidation(Vec<Violation>),
    /// The document passed validation and still could not be decoded.
    Decode(DecodeError),
}

/// A load error with its texts as sequences of characters.
pub ghost enum ConfigErrorView {
    Io(Seq<char>),
    Parse(Seq<char>),
    SchemaLoading(Seq<char>),
    SchemaValidation(Seq<ViolationView>),
    Decode(DecodeErrorView),
}

impl DeepView for ConfigError {
    type V = ConfigErrorView;

    open spec fn deep_view(&self) -> ConfigErrorView {
        match self {
            ConfigError::Io(message) => ConfigErrorView::Io(message@),
            ConfigError::Parse(message) => ConfigErrorView::Parse(message@),
            ConfigError::SchemaLoading(message) => ConfigErrorView::SchemaLoading(message@),
            ConfigError::SchemaValidation(violations) => ConfigErrorView::SchemaValidation(
                violations.deep_view(),
            ),
            ConfigError::Decode(error) => ConfigErrorView::Decode(error.deep_view()),
        }
    }
}

impl View for ConfigError {
    type V = ConfigErrorView;

    open spec fn view(&self) -> ConfigErrorView {
        self.deep_view()
    }
}

/// The reasons of some violations as a list, each on a line of its own
/// behind a dash.
pub open spec fn reason_lines(violations: Seq<ViolationView>) -> Seq<char>
    decreases violations.len(),
{
    if violations.len() == 0 {
        Seq::empty()
    } else {
        reason_lines(violations.drop_last()) + "\n  - "@ + violations.last().reason
    }
}

impl ConfigErrorView {
    /// The text that describes the error.
    pub open spec fn message(self) -> Seq<char> {
        match self {
            ConfigErrorView::Io(message) => message,
            ConfigErrorView::Parse(message) => message,
            ConfigErrorView::SchemaLoading(message) => "Schema loading error: "@ + message,
            ConfigErrorView::SchemaValidation(violations) => "Schema validation errors:"@
                + reason_lines(violations),
            ConfigErrorView::Decode(error) => error.message(),
        }
    }
}

impl ConfigError {
    /// A description of the error for people to read. For violations of the
    /// schema it lists the reason of every violation, not only of the first.
    pub fn message(&self) -> (text: String)
        ensures
            text@ == self@.message(),
    {
        match self {
            ConfigError::Io(message) => message.clone(),
            ConfigError::Parse(message) => message.clone(),
            ConfigError::SchemaLoading(message) => {
                let mut text = "Schema loading error: ".to_owned();
                text.append(message.as_str());
                text
            },
            ConfigError::SchemaValidation(violations) => {
                let mut text = "Schema validation errors:".to_owned();
                let ghost all = violations.deep_view();
                let mut i: usize = 0;
                while i < violations.len()
                    invariant
                        i <= violations.len(),
                        all == violations.deep_view(),
                        text@ == "Schema validation errors:"@ + reason_lines(all.take(i as int)),
                    decreases violations.len() - i,
                {
                    text.append("\n  - ");
                    text.append(violations[i].reason.as_str());
                    proof {
                        assert(all.take(i + 1).drop_last() =~= all.take(i as int));
                        assert(all.take(i + 1).last() == violations[i as int].deep_view());
                    }
                    i += 1;
                }
                proof {
                    assert(all.take(i as int) =~= all);
                }
                text
            },
            ConfigError::Decode(error) => error.message(),
        }
    }
}

} // verus!
