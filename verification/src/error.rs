//! Failures that abort an invocation before anything is submitted, or that
//! signal a broken resolution protocol.

use vstd::prelude::*;

verus! {

/// Why an orchestration request was refused.
///
/// Every variant is fatal to the invocation that raised it. Failures of a
/// single branch are not errors of this kind: they are recorded in the slot of
/// the branch.
#[derive(Debug, Clone, Copy, PartialEq, Eq, Structural)]
pub enum OrchestrationError {
    /// The requested number of parallel branches reaches the platform ceiling.
    BudgetExceeded,
    /// A fan-out was requested over no descriptors.
    EmptyFanOut,
    /// A chain was requested over no descriptors.
    EmptyChain,
    /// An external identity failed validation, or a chain names more than one
    /// target.
    InvalidTarget,
    /// A branch was still pending when its outcome was collected.
    ProtocolViolation,
}

} // verus!
