use vstd::prelude::*;

verus! {

/// Classification of a filesystem fault, as the store's logic reads it.
#[derive(Clone, Copy, PartialEq, Eq, Structural, Debug)]
pub enum IoKind {
    NotFound,
    AlreadyExists,
    UnexpectedEof,
    Other,
}

/// Severity that an external logging collaborator should give an error.
#[derive(Clone, Copy, PartialEq, Eq, Structural, Debug)]
pub enum Severity {
    Debug,
    Warn,
}

/// A filesystem failure, tagged with a short description of the action
/// that failed.
#[derive(Debug)]
pub struct Error {
    pub kind: IoKind,
    pub message: String,
}

impl Error {
    /// Wrap a fault kind with a short context message describing the
    /// action that failed.
    pub fn new(kind: IoKind, message: &str) -> (e: Error)
        ensures
            e.kind == kind,
            e.message@ == message@,
    {
        Error { kind, message: message.to_owned() }
    }

    /// A fault that carries no additional context.
    pub fn from_kind(kind: IoKind) -> (e: Error)
        ensures
            e.kind == kind,
            e.message@.len() == 0,
    {
        Error { kind, message: String::new() }
    }

    /// Severity for an external logging collaborator: a missing file is
    /// routine, anything else deserves a warning.
    pub fn log_level(&self) -> (level: Severity)
        ensures
            level == (if self.kind is NotFound {
                Severity::Debug
            } else {
                Severity::Warn
            }),
    {
        match self.kind {
            IoKind::NotFound => Severity::Debug,
            _ => Severity::Warn,
        }
    }
}

} // verus!
