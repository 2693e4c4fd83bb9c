//! Failures reported by collaborators, and the errors surfaced to the caller.

use vstd::prelude::*;

verus! {

/// The kind of an I/O failure, as far as any decision depends on it.
#[derive(Clone, Copy, Debug, PartialEq, Eq, Structural)]
pub enum IoKind {
    ConnectionRefused,
    ConnectionReset,
    ConnectionAborted,
    Interrupted,
    Other,
}

impl IoKind {
    /// A failure to reach the server that is likely to resolve itself shortly.
    pub open spec fn is_connection(self) -> bool {
        self == IoKind::ConnectionRefused || self == IoKind::ConnectionReset || self
            == IoKind::ConnectionAborted
    }
}

/// A failure reported by a collaborator, reduced to plain values: the kind of
/// I/O failure where it was one, and the collaborator's own description.
#[derive(Clone, Debug, PartialEq, Eq)]
pub struct Failure {
    pub io: Option<IoKind>,
    pub detail: String,
}

impl Failure {
    /// Whether the failure is a transient connection error, the only kind
    /// that is worth a retry.
    pub open spec fn is_transient(self) -> bool {
        self.io matches Some(kind) && kind.is_connection()
    }

    /// Whether the failure is the interruption of a blocking read by a signal.
    pub open spec fn is_interruption(self) -> bool {
        self.io == Some(IoKind::Interrupted)
    }

    pub fn transient(&self) -> (yes: bool)
        ensures
            yes == self.is_transient(),
    {
        match self.io {
            Some(IoKind::ConnectionRefused) => true,
            Some(IoKind::ConnectionReset) => true,
            Some(IoKind::ConnectionAborted) => true,
            _ => false,
        }
    }

    pub fn interruption(&self) -> (yes: bool)
        ensures
            yes == self.is_interruption(),
    {
        match self.io {
            Some(IoKind::Interrupted) => true,
            _ => false,
        }
    }
}

/// The classes of error that an operation surfaces.
#[derive(Clone, Copy, Debug, PartialEq, Eq, Structural)]
pub enum ErrorKind {
    /// The server stayed unreachable through every permitted attempt.
    Connection,
    /// The driver refused or failed; never retried.
    Driver,
    /// The prompt broke down for a reason other than an interruption.
    PromptFatal,
    /// The migration engine failed.
    Migration,
}

/// The collaborator capability that was in use when an operation failed.
#[derive(Clone, Copy, Debug, PartialEq, Eq, Structural)]
pub enum Capability {
    Exists,
    Create,
    Drop,
    ForceDrop,
    Migrate,
    Confirm,
}

/// Why an operation was abandoned: the class of error, the capability that
/// failed, the target it addressed, and the collaborator's report, which is
/// absent only where the collaborator died without making one.
#[derive(Clone, Debug, PartialEq, Eq)]
pub struct Error {
    pub kind: ErrorKind,
    pub operation: Capability,
    pub target: String,
    pub failure: Option<Failure>,
}

} // verus!
