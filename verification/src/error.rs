//! Errors as the host sees them, and the translation of engine failures.

use vstd::prelude::*;

verus! {

/// The kind of exception raised in the host for an error.
#[derive(Clone, Copy, Debug, PartialEq, Eq, Structural)]
pub enum ErrorKind {
    /// A value of the right type that cannot be used.
    Value,
    /// A value of the wrong type.
    Type,
    /// Something looked up on a host object that is not there.
    Attribute,
    /// A failure reported by the engine.
    Perspective,
}

/// An error raised in the host: its kind and its message.
#[derive(Clone, Debug, PartialEq, Eq)]
pub struct HostError {
    pub kind: ErrorKind,
    pub message: String,
}

/// A failure reported by the engine, held as the text the engine formats it to.
#[derive(Clone, Debug, PartialEq, Eq)]
pub struct EngineError {
    pub message: String,
}

/// What a [`HostError`] says: the model that contracts speak of.
pub struct Failure {
    pub kind: ErrorKind,
    pub message: Seq<char>,
}

impl View for HostError {
    type V = Failure;

    open spec fn view(&self) -> Failure {
        Failure { kind: self.kind, message: self.message@ }
    }
}

impl View for EngineError {
    type V = Seq<char>;

    open spec fn view(&self) -> Seq<char> {
        self.message@
    }
}

/// A value error with the given message.
pub open spec fn value_failure(message: Seq<char>) -> Failure {
    Failure { kind: ErrorKind::Value, message }
}

/// A type error with the given message.
pub open spec fn type_failure(message: Seq<char>) -> Failure {
    Failure { kind: ErrorKind::Type, message }
}

/// An attribute error with the given message.
pub open spec fn attribute_failure(message: Seq<char>) -> Failure {
    Failure { kind: ErrorKind::Attribute, message }
}

/// The host error that stands for an engine failure with the given text:
/// always of the kind [`ErrorKind::Perspective`], the text kept as it is.
pub open spec fn engine_failure(text: Seq<char>) -> Failure {
    Failure { kind: ErrorKind::Perspective, message: text }
}

impl HostError {
    /// A value error with the given message.
    pub fn value(message: String) -> (e: HostError)
        ensures
            e@ == value_failure(message@),
    {
        HostError { kind: ErrorKind::Value, message }
    }

    /// A type error with the given message.
    pub fn type_error(message: String) -> (e: HostError)
        ensures
            e@ == type_failure(message@),
    {
        HostError { kind: ErrorKind::Type, message }
    }
}

impl HostError {
    /// An attribute error with the given message.
    pub fn attribute(message: String) -> (e: HostError)
        ensures
            e@ == attribute_failure(message@),
    {
        HostError { kind: ErrorKind::Attribute, message }
    }
}

impl EngineError {
    /// An engine failure with the given formatted text.
    pub fn new(message: String) -> (e: EngineError)
        ensures
            e@ == message@,
    {
        EngineError { message }
    }
}

/// Turns the result of an engine call into what the host sees.  A success is
/// handed on unchanged; every failure becomes the one uniform host error
/// kind, and its message is the engine's text.
pub fn into_pyerr<T>(result: Result<T, EngineError>) -> (res: Result<T, HostError>)
    ensures
        match result {
            Ok(x) => res == Ok::<T, HostError>(x),
            Err(e) => res matches Err(h) && h@ == engine_failure(e@),
        },
{
    match result {
        Ok(x) => Ok(x),
        Err(e) => Err(HostError { kind: ErrorKind::Perspective, message: e.message }),
    }
}

} // verus!
