//! What can go wrong during a benchmark run.

use vstd::prelude::*;

verus! {

/// Why a contract instance could not be brought on chain.
#[derive(Clone, Copy, Debug, PartialEq, Eq, Structural)]
pub enum DeploymentError {
    /// The node refused the constructor transaction before inclusion.
    Rejected,
    /// The constructor transaction was included but failed, or its events
    /// carry no address for the new instance.
    ConstructorFailed,
    /// The constructor transaction was not seen within the wait window.
    Timeout,
}

/// The failures a run can report.
#[derive(Clone, Copy, Debug, PartialEq, Eq, Structural)]
pub enum Error {
    /// The connection to the node is lost or unreachable. Fatal to the run.
    Network,
    /// The node refused one transaction. Recorded, never fatal.
    Rejected,
    /// A required contract instance was never finalized.
    Deployment(DeploymentError),
    /// The observation window ended with transactions still unresolved.
    Timeout,
    /// A call payload is too long to be serialized.
    Encoding,
}

} // verus!
