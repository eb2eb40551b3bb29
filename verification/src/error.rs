//! The ways in which asking for a report can fail.

use vstd::prelude::*;

verus! {

/// What went wrong.
#[derive(Clone, Copy, Debug, PartialEq, Eq, Structural)]
pub enum ErrorKind {
    /// The request could not be written as a URL.
    InvalidUrl,
    /// The request could not be completed: no answer arrived, or it broke off.
    Transport,
    /// The service answered with a status other than 200.
    Api,
    /// The service answered with status 200, but its body is no report.
    Decode,
}

/// A failure, with the text that describes it to the user.
#[derive(Clone, Debug, PartialEq, Eq)]
pub struct ClientError {
    pub kind: ErrorKind,
    /// For `Api`, the body of the response as the service sent it; for the
    /// other kinds, the description given by whatever reported the failure.
    pub message: String,
}

/// A failure as a mathematical value.
pub ghost struct ClientErrorView {
    pub kind: ErrorKind,
    pub message: Seq<char>,
}

impl View for ClientError {
    type V = ClientErrorView;

    open spec fn view(&self) -> ClientErrorView {
        ClientErrorView { kind: self.kind, message: self.message@ }
    }
}

/// A result as a mathematical value: the view of what it holds.
pub open spec fn result_view<T: View, E: View>(r: Result<T, E>) -> Result<T::V, E::V> {
    match r {
        Ok(value) => Ok(value@),
        Err(error) => Err(error@),
    }
}

impl ClientError {
    /// A failure of the given kind with the given text.
    pub fn new(kind: ErrorKind, message: String) -> (e: ClientError)
        ensures
            e@ == (ClientErrorView { kind, message: message@ }),
    {
        ClientError { kind, message }
    }

    /// The text to show to the user.
    pub fn message(&self) -> (m: &str)
        ensures
            m@ == self@.message,
    {
        self.message.as_str()
    }
}

} // verus!
