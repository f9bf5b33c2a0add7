//! The one outward-facing failure of the bridge: a kind and a readable message.

use vstd::prelude::*;

verus! {

/// The three kinds of failure that may cross the outward boundary.
#[derive(Clone, Copy, Debug, PartialEq, Eq, Structural)]
pub enum ErrorKind {
    /// The invocation named a method that is not supported.
    Malformed,
    /// The payload did not have the request shape of its method.
    Deserialization,
    /// The operation, or a layer below it, failed.
    Provider,
}

/// A failure as contracts speak of it.
pub struct Failure {
    pub kind: ErrorKind,
    pub message: Seq<char>,
}

/// A failure as it leaves the bridge. Whatever went wrong inside arrives here
/// as one of three kinds with its message already turned into a string.
#[derive(Clone, Debug, PartialEq, Eq)]
pub enum DispatchError {
    Malformed(String),
    Deserialization(String),
    Provider(String),
}

impl View for DispatchError {
    type V = Failure;

    open spec fn view(&self) -> Failure {
        match self {
            DispatchError::Malformed(message) => Failure {
                kind: ErrorKind::Malformed,
                message: message@,
            },
            DispatchError::Deserialization(message) => Failure {
                kind: ErrorKind::Deserialization,
                message: message@,
            },
            DispatchError::Provider(message) => Failure {
                kind: ErrorKind::Provider,
                message: message@,
            },
        }
    }
}

impl DispatchError {
    /// Which of the three kinds this failure is.
    pub fn kind(&self) -> (kind: ErrorKind)
        ensures
            kind == self@.kind,
    {
        match self {
            DispatchError::Malformed(_) => ErrorKind::Malformed,
            DispatchError::Deserialization(_) => ErrorKind::Deserialization,
            DispatchError::Provider(_) => ErrorKind::Provider,
        }
    }

    /// The message that the failure carries.
    pub fn message(&self) -> (message: &String)
        ensures
            message@ == self@.message,
    {
        match self {
            DispatchError::Malformed(message) => message,
            DispatchError::Deserialization(message) => message,
            DispatchError::Provider(message) => message,
        }
    }

    /// The failure as a string: its message, unchanged.
    pub fn to_string(&self) -> (text: String)
        ensures
            text@ == self@.message,
    {
        self.message().clone()
    }
}

/// The view of a result whose success is a byte string.
pub open spec fn bytes_result(result: Result<Vec<u8>, DispatchError>) -> Result<Seq<u8>, Failure> {
    match result {
        Ok(bytes) => Ok(bytes@),
        Err(error) => Err(error@),
    }
}

/// The view of a result that carries nothing on success.
pub open spec fn unit_result(result: Result<(), DispatchError>) -> Result<(), Failure> {
    match result {
        Ok(()) => Ok(()),
        Err(error) => Err(error@),
    }
}

} // verus!
