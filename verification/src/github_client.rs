//! What a client of the issue tracker asks for and what it makes of the
//! answer. Sending the request is left to the caller.

use crate::codec::{decode_list, decoded_list};
use crate::error::{result_view, DecodeError, DecodeErrorView};
use crate::github::{Issue, IssueView};
use crate::json::{json_of, json_parse, parse_json, Json};
use crate::text::{decimal, push_decimal};
use vstd::prelude::*;
use vstd::string::StringExecFns;

verus! {

/// Where to find a repository and how to sign requests for it.
#[derive(Debug, Clone, PartialEq, Eq)]
pub struct Client {
    pub api_url: String,
    pub token: String,
    pub repo_owner: String,
    pub repo_name: String,
}

/// Why the open issues could not be had from a response.
#[derive(Debug, Clone, PartialEq, Eq)]
pub enum GitHubError {
    /// The tracker answered with a status other than 200. Holds the status
    /// and the body of the response.
    Status { code: u16, message: String },
    /// The body is not JSON. Holds the parser's diagnostic.
    Syntax(String),
    /// The body is JSON, but not an array.
    NotAList,
    /// An element of the array is not an issue.
    Issue(DecodeError),
}

/// A response error with its texts as sequences of characters.
pub ghost enum GitHubErrorView {
    Status { code: u16, message: Seq<char> },
    Syntax(Seq<char>),
    NotAList,
    Issue(DecodeErrorView),
}

impl DeepView for GitHubError {
    type V = GitHubErrorView;

    open spec fn deep_view(&self) -> GitHubErrorView {
        match self {
            GitHubError::Status { code, message } => GitHubErrorView::Status {
                code: *code,
                message: message@,
            },
            GitHubError::Syntax(message) => GitHubErrorView::Syntax(message@),
            GitHubError::NotAList => GitHubErrorView::NotAList,
            GitHubError::Issue(error) => GitHubErrorView::Issue(error.deep_view()),
        }
    }
}

impl View for GitHubError {
    type V = GitHubErrorView;

    open spec fn view(&self) -> GitHubErrorView {
        self.deep_view()
    }
}

impl GitHubErrorView {
    /// The text that describes the error.
    pub open spec fn message(self) -> Seq<char> {
        match self {
            GitHubErrorView::Status { code, message } => "Status: "@ + decimal(code as nat)
                + " - "@ + message,
            GitHubErrorView::Syntax(message) => message,
            GitHubErrorView::NotAList => "expected a list of issues"@,
            GitHubErrorView::Issue(error) => error.message(),
        }
    }
}

impl GitHubError {
    /// A description of the error for people to read.
    pub fn message(&self) -> (text: String)
        ensures
            text@ == self@.message(),
    {
        match self {
            GitHubError::Status { code, message } => {
                let mut text = "Status: ".to_owned();
                push_decimal(&mut text, *code);
                text.append(" - ");
                text.append(message.as_str());
                text
            },
            GitHubError::Syntax(message) => message.clone(),
            GitHubError::NotAList => "expected a list of issues".to_owned(),
            GitHubError::Issue(error) => error.message(),
        }
    }
}

/// The issues that a JSON document lists: every element of the array,
/// decoded, or the error of the first element that is no issue.
pub open spec fn issues_decoded(document: Json) -> Result<Seq<IssueView>, GitHubErrorView> {
    match document {
        Json::Array(items) => match decoded_list::<Issue>(items) {
            Ok(issues) => Ok(issues),
            Err(e) => Err(GitHubErrorView::Issue(e)),
        },
        _ => Err(GitHubErrorView::NotAList),
    }
}

/// What a response means: with status 200 the issues that its body lists,
/// with any other status an error that holds status and body.
pub open spec fn issues_read(status: u16, body: Seq<char>) -> Result<
    Seq<IssueView>,
    GitHubErrorView,
> {
    if status != 200 {
        Err(GitHubErrorView::Status { code: status, message: body })
    } else {
        match json_parse(body) {
            Err(message) => Err(GitHubErrorView::Syntax(message)),
            Ok(document) => issues_decoded(document),
        }
    }
}

impl Client {
    /// The address that lists the open issues of the repository.
    pub fn open_issues_url(&self) -> (url: String)
        ensures
            url@ == self.api_url@ + "/repos/"@ + self.repo_owner@ + "/"@ + self.repo_name@
                + "/issues?state=open"@,
    {
        let mut url = self.api_url.clone();
        url.append("/repos/");
        url.append(self.repo_owner.as_str());
        url.append("/");
        url.append(self.repo_name.as_str());
        url.append("/issues?state=open");
        url
    }

    /// The value of the `Authorization` header: the token as a bearer token,
    /// or `None` when the client has no token and requests go unsigned.
    pub fn authorization(&self) -> (header: Option<String>)
        ensures
            match header {
                Some(value) => self.token@.len() > 0 && value@ == "Bearer "@ + self.token@,
                None => self.token@.len() == 0,
            },
    {
        if self.token.as_str().is_empty() {
            None
        } else {
            let mut value = "Bearer ".to_owned();
            value.append(self.token.as_str());
            Some(value)
        }
    }
}

/// Decodes a JSON document that lists issues.
///
/// Fails with `NotAList` when the document is not an array, and with
/// `Issue` and the error of the first element that is no issue.
pub fn decode_issues(document: &serde_json::Value) -> (r: Result<Vec<Issue>, GitHubError>)
    ensures
        result_view(r) == issues_decoded(json_of(*document)),
{
    match document.as_array() {
        Some(items) => match decode_list::<Issue>(items) {
            Ok(issues) => Ok(issues),
            Err(e) => Err(GitHubError::Issue(e)),
        },
        None => Err(GitHubError::NotAList),
    }
}

/// Reads the open issues from a response of the tracker.
///
/// A status other than 200 fails with `Status`, which holds the status and
/// the body. Otherwise the body must be a JSON array of issues.
pub fn read_open_issues(status: u16, body: String) -> (r: Result<Vec<Issue>, GitHubError>)
    ensures
        result_view(r) == issues_read(status, body@),
{
    if status != 200 {
        return Err(GitHubError::Status { code: status, message: body });
    }
    match parse_json(body.as_str()) {
        Ok(document) => decode_issues(&document),
        Err(message) => Err(GitHubError::Syntax(message)),
    }
}

} // verus!
