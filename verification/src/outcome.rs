//! How a request leaves the pipeline: it proceeds, or it is rejected with a
//! status that names the stage and failure that stopped it.

use vstd::prelude::*;

verus! {

/// The status class a rejected request is finalized with.
#[derive(Clone, Copy, Debug, PartialEq, Eq, Structural)]
pub enum RejectStatus {
    /// The body crossed the configured ceiling.
    PayloadTooLarge,
    /// The processor was unreachable, failed, or gave no usable answer
    /// under fail-closed policy.
    BadGateway,
    /// The processor call ran out of its time budget under fail-closed
    /// policy.
    GatewayTimeout,
}

/// A stage's terminal verdict on the request.
#[derive(Clone, Copy, Debug, PartialEq, Eq, Structural)]
pub enum StageOutcome {
    /// The host proceeds to its next phase.
    Continue,
    /// The host finalizes the request with this status.
    Reject(RejectStatus),
}

} // verus!
