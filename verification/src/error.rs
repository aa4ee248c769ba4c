//! The two ways in which a check can end without a record.

use vstd::prelude::*;

verus! {

/// Why a check produced no record.
///
/// A reply in which the service itself reports that it skipped a check is
/// not an error: it decodes into a record whose `result` carries the code.
#[derive(Clone, Copy, Debug, PartialEq, Eq, Structural)]
pub enum CheckError {
    /// The exchange with the service did not complete: name resolution,
    /// TLS, connecting, sending or reading failed.
    Transport,
    /// The reply arrived but is not JSON, or is JSON of another shape than
    /// the operation's record (a member is missing or of the wrong type).
    Decode,
}

} // verus!
