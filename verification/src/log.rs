//! Session log records.

use vstd::prelude::*;

verus! {

/// One line of the session's rolling log: a message and the time it was
/// recorded.
#[derive(Debug)]
pub struct Log {
    pub message: String,
    pub timestamp: i64,
}

} // verus!
