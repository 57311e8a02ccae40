use vstd::prelude::*;

verus! {

/// The protocol's closed set of error kinds.
#[derive(Debug, Clone, Copy, PartialEq, Eq, Structural)]
pub enum MaelstromError {
    Timeout,
    NodeNotFound,
    NotSupported,
    TemporarilyUnavailable,
    MalformedRequest,
    Crash,
    Abort,
    KeyDoesNotExist,
    KeyAlreadyExist,
    PreconditionFailed,
    TxnConflict,
}

impl MaelstromError {
    /// The protocol's numeric code for this error kind.
    pub open spec fn spec_code(self) -> u64 {
        match self {
            MaelstromError::Timeout => 0,
            MaelstromError::NodeNotFound => 1,
            MaelstromError::NotSupported => 10,
            MaelstromError::TemporarilyUnavailable => 11,
            MaelstromError::MalformedRequest => 12,
            MaelstromError::Crash => 13,
            MaelstromError::Abort => 14,
            MaelstromError::KeyDoesNotExist => 20,
            MaelstromError::KeyAlreadyExist => 21,
            MaelstromError::PreconditionFailed => 22,
            MaelstromError::TxnConflict => 30,
        }
    }

    #[verifier::when_used_as_spec(spec_code)]
    pub fn code(self) -> (r: u64)
        ensures
            r == self.spec_code(),
    {
        match self {
            MaelstromError::Timeout => 0,
            MaelstromError::NodeNotFound => 1,
            MaelstromError::NotSupported => 10,
            MaelstromError::TemporarilyUnavailable => 11,
            MaelstromError::MalformedRequest => 12,
            MaelstromError::Crash => 13,
            MaelstromError::Abort => 14,
            MaelstromError::KeyDoesNotExist => 20,
            MaelstromError::KeyAlreadyExist => 21,
            MaelstromError::PreconditionFailed => 22,
            MaelstromError::TxnConflict => 30,
        }
    }

    /// A short human-readable description of the error kind.
    pub fn description(self) -> (r: &'static str)
        ensures
            r@ == match self {
                MaelstromError::Timeout => "timeout"@,
                MaelstromError::NodeNotFound => "node not found"@,
                MaelstromError::NotSupported => "not supported"@,
                MaelstromError::TemporarilyUnavailable => "temporarily unavailable"@,
                MaelstromError::MalformedRequest => "malformed request"@,
                MaelstromError::Crash => "crash"@,
                MaelstromError::Abort => "Abort"@,
                MaelstromError::KeyDoesNotExist => "KeyDoesNotExist"@,
                MaelstromError::KeyAlreadyExist => "KeyAlreadyExist"@,
                MaelstromError::PreconditionFailed => "PreconditionFailed"@,
                MaelstromError::TxnConflict => "TxnConflict"@,
            },
    {
        match self {
            MaelstromError::Timeout => "timeout",
            MaelstromError::NodeNotFound => "node not found",
            MaelstromError::NotSupported => "not supported",
            MaelstromError::TemporarilyUnavailable => "temporarily unavailable",
            MaelstromError::MalformedRequest => "malformed request",
            MaelstromError::Crash => "crash",
            MaelstromError::Abort => "Abort",
            MaelstromError::KeyDoesNotExist => "KeyDoesNotExist",
            MaelstromError::KeyAlreadyExist => "KeyAlreadyExist",
            MaelstromError::PreconditionFailed => "PreconditionFailed",
            MaelstromError::TxnConflict => "TxnConflict",
        }
    }
}

} // verus!
