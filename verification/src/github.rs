//! Issues as the issue tracker reports them.

use crate::codec::Decode;
use crate::error::{DecodeError, DecodeErrorView};
use crate::json::{member, text_member, unsigned_member, Json};
use vstd::prelude::*;

verus! {

/// An account of the issue tracker.
#[derive(Debug, Clone, PartialEq, Eq)]
pub struct User {
    pub login: String,
}

/// A user as a mathematical value.
pub ghost struct UserView {
    pub login: Seq<char>,
}

impl DeepView for User {
    type V = UserView;

    open spec fn deep_view(&self) -> UserView {
        UserView { login: self.login@ }
    }
}

impl View for User {
    type V = UserView;

    open spec fn view(&self) -> UserView {
        self.deep_view()
    }
}

impl Decode for User {
    /// A user is an object with a string `login`.
    open spec fn decoded(j: Json) -> Result<UserView, DecodeErrorView> {
        match j.text("login"@) {
            Some(login) => Ok(UserView { login }),
            None => Err(DecodeErrorView::MissingField("User"@, "login"@)),
        }
    }

    fn decode(v: &serde_json::Value) -> (r: Result<User, DecodeError>) {
        match text_member(v, "login") {
            Some(login) => Ok(User { login: login.to_owned() }),
            None => Err(DecodeError::missing_field("User", "login")),
        }
    }
}

/// An issue.
#[derive(Debug, Clone, PartialEq, Eq)]
pub struct Issue {
    pub number: u32,
    pub title: String,
    pub body: Option<String>,
    pub url: String,
    pub user: User,
}

/// An issue as a mathematical value.
pub ghost struct IssueView {
    pub number: u32,
    pub title: Seq<char>,
    pub body: Option<Seq<char>>,
    pub url: Seq<char>,
    pub user: UserView,
}

impl DeepView for Issue {
    type V = IssueView;

    open spec fn deep_view(&self) -> IssueView {
        IssueView {
            number: self.number,
            title: self.title@,
            body: self.body.deep_view(),
            url: self.url@,
            user: self.user.deep_view(),
        }
    }
}

impl View for Issue {
    type V = IssueView;

    open spec fn view(&self) -> IssueView {
        self.deep_view()
    }
}

impl Decode for Issue {
    /// An issue is an object with an integer `number` that fits 32 bits,
    /// the strings `title` and `url`, and an object `user`. The fields are
    /// read in the order number, title, url, user, and the first that is
    /// absent or does not decode gives the error. The body is the string
    /// member `body` if there is one.
    open spec fn decoded(j: Json) -> Result<IssueView, DecodeErrorView> {
        match j.unsigned("number"@, u32::MAX as int) {
            None => Err(DecodeErrorView::MissingField("Issue"@, "number"@)),
            Some(number) => match j.text("title"@) {
                None => Err(DecodeErrorView::MissingField("Issue"@, "title"@)),
                Some(title) => match j.text("url"@) {
                    None => Err(DecodeErrorView::MissingField("Issue"@, "url"@)),
                    Some(url) => match j.get("user"@) {
                        None => Err(DecodeErrorView::MissingField("Issue"@, "user"@)),
                        Some(user) => match User::decoded(user) {
                            Err(e) => Err(e),
                            Ok(user) => Ok(
                                IssueView {
                                    number: number as u32,
                                    title,
                                    body: j.text("body"@),
                                    url,
                                    user,
                                },
                            ),
                        },
                    },
                },
            },
        }
    }

    fn decode(v: &serde_json::Value) -> (r: Result<Issue, DecodeError>) {
        let number = match unsigned_member(v, "number", u32::MAX as u64) {
            Some(number) => number as u32,
            None => {
                return Err(DecodeError::missing_field("Issue", "number"));
            },
        };
        let title = match text_member(v, "title") {
            Some(title) => title.to_owned(),
            None => {
                return Err(DecodeError::missing_field("Issue", "title"));
            },
        };
        let url = match text_member(v, "url") {
            Some(url) => url.to_owned(),
            None => {
                return Err(DecodeError::missing_field("Issue", "url"));
            },
        };
        let user = match member(v, "user") {
            Some(user) => match User::decode(user) {
                Ok(user) => user,
                Err(e) => {
                    return Err(e);
                },
            },
            None => {
                return Err(DecodeError::missing_field("Issue", "user"));
            },
        };
        let body = match text_member(v, "body") {
            Some(body) => Some(body.to_owned()),
            None => None,
        };
        Ok(Issue { number, title, body, url, user })
    }
}

} // verus!
