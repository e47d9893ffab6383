//! Error types of the session engine.

use vstd::prelude::*;
use vstd::string::StringExecFns;

verus! {

/// Failures surfaced to the caller of the session API.
#[derive(Debug)]
pub enum LTError {
    FailedToCreateSession(String),
    FailedToAddTorrent(String),
    FailedToAddMagnet(String),
}

pub type LTResult<T> = Result<T, LTError>;

impl LTError {
    /// A human-readable description of the failure.
    pub fn message(&self) -> (r: String)
        ensures
            match self {
                LTError::FailedToCreateSession(d) => r@ == "Failed to create session: "@ + d@,
                LTError::FailedToAddTorrent(d) => r@ == "Failed to add torrent: "@ + d@,
                LTError::FailedToAddMagnet(d) => r@ == "Failed to add magnet: "@ + d@,
            },
    {
        match self {
            LTError::FailedToCreateSession(d) => concat_prefix("Failed to create session: ", d),
            LTError::FailedToAddTorrent(d) => concat_prefix("Failed to add torrent: ", d),
            LTError::FailedToAddMagnet(d) => concat_prefix("Failed to add magnet: ", d),
        }
    }
}

/// `prefix` followed by `detail` as one fresh string.
fn concat_prefix(prefix: &str, detail: &String) -> (r: String)
    ensures
        r@ == prefix@ + detail@,
{
    let mut r = String::from_str(prefix);
    r.append(detail.as_str());
    r
}

/// Command errors: the caller supplied an invalid or conflicting request.
/// Commands that return one leave the engine state unchanged.
#[derive(Clone, Copy, Debug, PartialEq, Eq, Structural)]
pub enum EngineError {
    /// A piece, block or file index is out of range.
    InvalidIndex,
    /// A block-state transition that the tracker refuses.
    InvalidTransition,
    /// A download priority outside the accepted set.
    InvalidPriority,
    /// No torrent with the given info-hash is in the session.
    UnknownTorrent,
    /// An add of an info-hash already present, with duplicates declared errors.
    DuplicateTorrent,
}

} // verus!
