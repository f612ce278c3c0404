//! The error that the REST API reports with a non-success status.

use crate::status::{status_text, StatusCode};
use vstd::prelude::*;
use vstd::string::StringExecFns;

verus! {

/// Why a field of a resource was refused.
#[derive(Clone, Copy, Debug, PartialEq, Eq, Structural)]
pub enum ErrorCode {
    Missing,
    MissingField,
    Invalid,
    AlreadyExists,
    Unprocessable,
    Custom,
}

impl ErrorCode {
    /// The name of the code in an error body.
    pub open spec fn spec_name(self) -> Seq<char> {
        match self {
            ErrorCode::Missing => "missing"@,
            ErrorCode::MissingField => "missing_field"@,
            ErrorCode::Invalid => "invalid"@,
            ErrorCode::AlreadyExists => "already_exists"@,
            ErrorCode::Unprocessable => "unprocessable"@,
            ErrorCode::Custom => "custom"@,
        }
    }

    /// The code that an error body calls `name`, if it is one of the six.
    pub open spec fn named(name: Seq<char>) -> Option<ErrorCode> {
        if name == "missing"@ {
            Some(ErrorCode::Missing)
        } else if name == "missing_field"@ {
            Some(ErrorCode::MissingField)
        } else if name == "invalid"@ {
            Some(ErrorCode::Invalid)
        } else if name == "already_exists"@ {
            Some(ErrorCode::AlreadyExists)
        } else if name == "unprocessable"@ {
            Some(ErrorCode::Unprocessable)
        } else if name == "custom"@ {
            Some(ErrorCode::Custom)
        } else {
            None
        }
    }

    pub fn name(&self) -> (name: &'static str)
        ensures
            name@ == self.spec_name(),
    {
        match self {
            ErrorCode::Missing => "missing",
            ErrorCode::MissingField => "missing_field",
            ErrorCode::Invalid => "invalid",
            ErrorCode::AlreadyExists => "already_exists",
            ErrorCode::Unprocessable => "unprocessable",
            ErrorCode::Custom => "custom",
        }
    }

    pub fn from_name(name: &str) -> (code: Option<ErrorCode>)
        ensures
            code == Self::named(name@),
    {
        let name: String = name.to_owned();
        if name == String::from_str("missing") {
            Some(ErrorCode::Missing)
        } else if name == String::from_str("missing_field") {
            Some(ErrorCode::MissingField)
        } else if name == String::from_str("invalid") {
            Some(ErrorCode::Invalid)
        } else if name == String::from_str("already_exists") {
            Some(ErrorCode::AlreadyExists)
        } else if name == String::from_str("unprocessable") {
            Some(ErrorCode::Unprocessable)
        } else if name == String::from_str("custom") {
            Some(ErrorCode::Custom)
        } else {
            None
        }
    }
}

/// Every code is found again by its name.
pub proof fn lemma_code_by_name(code: ErrorCode)
    ensures
        ErrorCode::named(code.spec_name()) == Some(code),
{
    reveal_strlit("missing");
    reveal_strlit("missing_field");
    reveal_strlit("invalid");
    reveal_strlit("already_exists");
    reveal_strlit("unprocessable");
    reveal_strlit("custom");
    assert("missing"@.len() == 7);
    assert("missing_field"@.len() == 13);
    assert("invalid"@.len() == 7);
    assert("already_exists"@.len() == 14);
    assert("unprocessable"@.len() == 13);
    assert("custom"@.len() == 6);
    assert("missing"@[0] == 'm' && "invalid"@[0] == 'i');
    assert("missing_field"@[0] == 'm' && "unprocessable"@[0] == 'u');
}

/// One refused field of one resource.
#[derive(Debug)]
pub struct ErrorObject {
    pub resource: String,
    pub field: String,
    pub code: ErrorCode,
}

/// An error body, decoded: each of its three members may be absent.
#[derive(Debug)]
pub struct Payload {
    pub message: Option<String>,
    pub errors: Option<Vec<ErrorObject>>,
    pub documentation_url: Option<String>,
}

/// A response with a non-success status.
#[derive(Debug)]
pub struct ApiError {
    pub status: StatusCode,
    pub message: Option<String>,
    pub errors: Option<Vec<ErrorObject>>,
    pub documentation_url: Option<String>,
}

impl ApiError {
    /// The error that a response with `status` and the body `text` stands
    /// for. `payload` is the body decoded as an error body, where it is one:
    /// then its members are taken over as they are. A body of any other shape
    /// becomes the message, whole.
    pub open spec fn classified(status: StatusCode, text: String, payload: Option<Payload>) -> ApiError {
        match payload {
            Some(payload) => ApiError {
                status,
                message: payload.message,
                errors: payload.errors,
                documentation_url: payload.documentation_url,
            },
            None => ApiError { status, message: Some(text), errors: None, documentation_url: None },
        }
    }

    pub fn from_body(status: StatusCode, text: String, payload: Option<Payload>) -> (error: ApiError)
        ensures
            error == Self::classified(status, text, payload),
    {
        match payload {
            Some(payload) => ApiError {
                status,
                message: payload.message,
                errors: payload.errors,
                documentation_url: payload.documentation_url,
            },
            None => ApiError { status, message: Some(text), errors: None, documentation_url: None },
        }
    }

    /// The message part of the line: a space and the message in double
    /// quotes, or nothing.
    pub open spec fn message_part(self) -> Seq<char> {
        match self.message {
            Some(message) => " \""@ + message@ + "\""@,
            None => Seq::empty(),
        }
    }

    /// The link part of the line: a space and the documentation link in
    /// round brackets, or nothing.
    pub open spec fn link_part(self) -> Seq<char> {
        match self.documentation_url {
            Some(url) => " ("@ + url@ + ")"@,
            None => Seq::empty(),
        }
    }

    /// The error on one line: the status in square brackets, then the
    /// message and the documentation link, each where there is one.
    pub open spec fn line(self) -> Seq<char> {
        "["@ + status_text(self.status.code()) + "]"@ + self.message_part() + self.link_part()
    }

    pub fn to_string(&self) -> (text: String)
        ensures
            text@ == self.line(),
    {
        let mut text: String = String::from_str("[");
        text.append(self.status.to_string().as_str());
        text.append("]");
        if let Some(message) = &self.message {
            text.append(" \"");
            text.append(message.as_str());
            text.append("\"");
        }
        assert(text@ == "["@ + status_text(self.status.code()) + "]"@ + self.message_part());
        if let Some(url) = &self.documentation_url {
            text.append(" (");
            text.append(url.as_str());
            text.append(")");
        }
        text
    }
}

} // verus!
