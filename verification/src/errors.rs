//! The failures that the library reports.

use vstd::prelude::*;

verus! {

/// No credential has been established for a call that needs one.
#[derive(Debug, Clone, Copy, PartialEq, Eq, Structural)]
pub struct AuthenticationError {}

/// The remote store answered, but not with what was asked for.
#[derive(Debug, Clone, PartialEq, Eq)]
pub struct APIError {
    msg: String,
}

impl View for APIError {
    type V = Seq<char>;

    closed spec fn view(&self) -> Seq<char> {
        self.msg@
    }
}

impl APIError {
    /// An error with the given message.
    pub fn new(msg: String) -> (error: Self)
        ensures
            error@ == msg@,
    {
        APIError { msg }
    }

    /// The message of the error.
    pub fn message(&self) -> (msg: &String)
        ensures
            msg@ == self@,
    {
        &self.msg
    }
}

/// Why an attribute could not be produced.
#[derive(Debug, Clone, PartialEq, Eq)]
pub enum FetchError<E> {
    /// The remote call failed; the failure is handed on as it came.
    Remote(E),
    /// The response says nothing about the issue that was asked for.
    MissingRecord,
    /// The response describes the issue but leaves out the attribute that
    /// was asked for.
    MissingAttribute,
}

} // verus!
