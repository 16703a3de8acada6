//! The error taxonomy of a bridge call.
//!
//! Every fallible operation reports one of these to its immediate caller;
//! nothing is retried and nothing is swallowed.

use vstd::prelude::*;
use vstd::string::StringExecFns;

verus! {

/// An error that can happen when calling a plugin operation across the
/// bridge.
#[derive(Debug, Clone, PartialEq, Eq)]
pub enum Error {
    /// The host runtime threw or rejected with the given message.
    JsException { message: String },
    /// A capability expected to be callable (such as the `remove` entry of a
    /// registration handle) is not a function on the current platform.
    NotAFunction { name: String },
    /// A typed value could not be turned into the host representation.
    SerializeError { typename: String, detail: String },
    /// A received encoded value did not match the expected typed shape.
    DeserializeError { typename: String, detail: String },
}

/// The mathematical shape of an [`Error`].
pub enum ErrorView {
    JsException { message: Seq<char> },
    NotAFunction { name: Seq<char> },
    SerializeError { typename: Seq<char>, detail: Seq<char> },
    DeserializeError { typename: Seq<char>, detail: Seq<char> },
}

impl View for Error {
    type V = ErrorView;

    open spec fn view(&self) -> ErrorView {
        match self {
            Error::JsException { message } => ErrorView::JsException { message: message@ },
            Error::NotAFunction { name } => ErrorView::NotAFunction { name: name@ },
            Error::SerializeError { typename, detail } => ErrorView::SerializeError {
                typename: typename@,
                detail: detail@,
            },
            Error::DeserializeError { typename, detail } => ErrorView::DeserializeError {
                typename: typename@,
                detail: detail@,
            },
        }
    }
}

impl ErrorView {
    /// The one-line description [`Error::message`] renders.
    pub open spec fn spec_message(self) -> Seq<char> {
        match self {
            ErrorView::JsException { message } => "Js Exception: "@ + message,
            ErrorView::NotAFunction { name } => "Not a function: "@ + name,
            ErrorView::SerializeError { typename, detail } =>
                "Error Serializing "@ + typename + " to JsValue: "@ + detail,
            ErrorView::DeserializeError { typename, detail } =>
                "Error Deserializing JsValue to "@ + typename + ": "@ + detail,
        }
    }
}

impl Error {
    /// The error reported when an encoded value cannot be decoded as a value
    /// of the named type.
    pub fn deserializing(typename: &str, detail: &str) -> (r: Self)
        ensures
            r@ == (ErrorView::DeserializeError { typename: typename@, detail: detail@ }),
    {
        Error::DeserializeError { typename: typename.to_owned(), detail: detail.to_owned() }
    }

    /// The error reported when a typed value cannot be encoded for the named
    /// type.
    pub fn serializing(typename: &str, detail: &str) -> (r: Self)
        ensures
            r@ == (ErrorView::SerializeError { typename: typename@, detail: detail@ }),
    {
        Error::SerializeError { typename: typename.to_owned(), detail: detail.to_owned() }
    }

    /// A one-line description of the error.
    pub fn message(&self) -> (r: String)
        ensures
            r@ == self@.spec_message(),
    {
        match self {
            Error::JsException { message } => {
                String::from_str("Js Exception: ").concat(message.as_str())
            },
            Error::NotAFunction { name } => {
                String::from_str("Not a function: ").concat(name.as_str())
            },
            Error::SerializeError { typename, detail } => {
                String::from_str("Error Serializing ")
                    .concat(typename.as_str())
                    .concat(" to JsValue: ")
                    .concat(detail.as_str())
            },
            Error::DeserializeError { typename, detail } => {
                String::from_str("Error Deserializing JsValue to ")
                    .concat(typename.as_str())
                    .concat(": ")
                    .concat(detail.as_str())
            },
        }
    }
}

} // verus!
