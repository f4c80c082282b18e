use vstd::prelude::*;
use vstd::string::*;

verus! {

/// Why a command line could not be turned into a request.
#[derive(Debug, Clone)]
pub enum ArgError {
    /// Missing positional argument, unknown subcommand or unrecognised flag.
    UsageError,
    /// The URL argument, which is not an absolute URL with a host.
    InvalidUrl(String),
    /// A body token that has no `=` or has an empty key.
    InvalidKeyValuePair(String),
}

/// An argument error as plain values: its kind and the offending text.
pub enum ArgErrorModel {
    Usage,
    Url(Seq<char>),
    Pair(Seq<char>),
}

impl View for ArgError {
    type V = ArgErrorModel;

    open spec fn view(&self) -> ArgErrorModel {
        match self {
            ArgError::UsageError => ArgErrorModel::Usage,
            ArgError::InvalidUrl(u) => ArgErrorModel::Url(u@),
            ArgError::InvalidKeyValuePair(t) => ArgErrorModel::Pair(t@),
        }
    }
}

/// The message shown for an error.
pub open spec fn message_of(e: ArgErrorModel) -> Seq<char> {
    match e {
        ArgErrorModel::Usage => "usage: get <url> | post <url> [key=value ...]"@,
        ArgErrorModel::Url(u) => "invalid URL (expected an absolute URL with a host): "@ + u,
        ArgErrorModel::Pair(t) => "Failed to parse "@ + t + " (expected key=value with a non-empty key)"@,
    }
}

impl ArgError {
    /// A human-readable description of the error, naming the offending text.
    pub fn describe(&self) -> (r: String)
        ensures
            r@ == message_of(self@),
    {
        match self {
            ArgError::UsageError => String::from_str("usage: get <url> | post <url> [key=value ...]"),
            ArgError::InvalidUrl(u) => {
                let mut m = String::from_str("invalid URL (expected an absolute URL with a host): ");
                m.append(u.as_str());
                m
            },
            ArgError::InvalidKeyValuePair(t) => {
                let mut m = String::from_str("Failed to parse ");
                m.append(t.as_str());
                m.append(" (expected key=value with a non-empty key)");
                m
            },
        }
    }
}

} // verus!
