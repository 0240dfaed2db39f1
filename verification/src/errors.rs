//! The error that the demo reports: a message, and a detail where there is one.

use vstd::prelude::*;
use vstd::string::StringExecFns;

verus! {

/// What went wrong, in one line, with an optional line of detail.
#[derive(Debug)]
pub struct Error {
    msg: String,
    detail: Option<String>,
}

/// The text that stands for an error with this message and detail: the
/// message on a line of its own, then the detail, behind a tab, on another.
pub open spec fn rendered(message: Seq<char>, detail: Option<Seq<char>>) -> Seq<char> {
    match detail {
        Some(detail) => message + seq!['\n', '\t'] + detail + seq!['\n'],
        None => message + seq!['\n'],
    }
}

impl Error {
    /// The message.
    pub closed spec fn message(&self) -> Seq<char> {
        self.msg@
    }

    /// The detail, if there is one.
    pub closed spec fn detail(&self) -> Option<Seq<char>> {
        match self.detail {
            Some(detail) => Some(detail@),
            None => None,
        }
    }

    /// An error with a message and no detail.
    pub fn new(msg: &str) -> (error: Error)
        ensures
            error.message() == msg@,
            error.detail() is None,
    {
        Error { msg: String::from_str(msg), detail: None }
    }

    /// An error with a message and a detail.
    pub fn with_detail(msg: &str, detail: &str) -> (error: Error)
        ensures
            error.message() == msg@,
            error.detail() == Some(detail@),
    {
        Error { msg: String::from_str(msg), detail: Some(String::from_str(detail)) }
    }

    /// An error that stands for another one, of which `description` is the
    /// short description and `shown` the text it displays as: the first
    /// becomes the message, the second the detail.
    pub fn from_error(description: &str, shown: &str) -> (error: Error)
        ensures
            error.message() == description@,
            error.detail() == Some(shown@),
    {
        Error::with_detail(description, shown)
    }

    /// The message, as text.
    pub fn description(&self) -> (text: &str)
        ensures
            text@ == self.message(),
    {
        self.msg.as_str()
    }

    /// The detail, as text.
    pub fn detail_text(&self) -> (text: Option<&str>)
        ensures
            match text {
                Some(text) => self.detail() == Some(text@),
                None => self.detail() is None,
            },
    {
        match &self.detail {
            Some(detail) => Some(detail.as_str()),
            None => None,
        }
    }

    /// The error as it is shown to a reader.
    pub fn render(&self) -> (text: String)
        ensures
            text@ == rendered(self.message(), self.detail()),
    {
        proof {
            reveal_strlit("\n");
            reveal_strlit("\t");
        }
        let mut text = self.msg.clone();
        text.append("\n");
        if let Some(detail) = &self.detail {
            text.append("\t");
            text.append(detail.as_str());
            text.append("\n");
            assert(text@ =~= rendered(self.message(), self.detail()));
        }
        text
    }
}

impl From<String> for Error {
    /// A text alone is the detail of an error that says no more than
    /// "error".
    fn from(detail: String) -> (error: Error)
        ensures
            error.message() == "error"@,
            error.detail() == Some(detail@),
    {
        Error { msg: String::from_str("error"), detail: Some(detail) }
    }
}

/// A `String` cannot be named by its text in a specification, so what `from`
/// gives is stated in its own `ensures`, over the views.
impl vstd::std_specs::convert::FromSpecImpl<String> for Error {
    open spec fn obeys_from_spec() -> bool {
        false
    }

    open spec fn from_spec(detail: String) -> Error {
        arbitrary()
    }
}

impl From<()> for Error {
    /// Nothing is known of the error.
    fn from(nothing: ()) -> (error: Error)
        ensures
            error.message() == "unknown error"@,
            error.detail() is None,
    {
        Error::new("unknown error")
    }
}

/// As for `String`: what `from` gives is stated in its own `ensures`.
impl vstd::std_specs::convert::FromSpecImpl<()> for Error {
    open spec fn obeys_from_spec() -> bool {
        false
    }

    open spec fn from_spec(nothing: ()) -> Error {
        arbitrary()
    }
}

} // verus!
