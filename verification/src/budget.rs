//! The resource budget of one invocation: how many parallel branches it may
//! create, and how a transferred amount is divided among them.

use vstd::prelude::*;

use crate::descriptor::{descriptor_views, CallDescriptor, DescriptorView};
use crate::error::OrchestrationError;

verus! {

/// The ceiling on parallel branches: a graph holds fewer than this many.
///
/// Every branch costs the host a share of the finite processing allowance of
/// the invocation, so the ceiling is checked before anything is built.
pub const MAX_BRANCHES: usize = 60;

/// Whether `branches` parallel branches fit under the ceiling.
pub open spec fn within_ceiling(branches: nat) -> bool {
    branches < MAX_BRANCHES
}

/// An amount divided evenly among branches.
///
/// The division is integer division. What does not divide is left
/// unallocated: it is dropped, not handed to any branch, and reported in
/// `dropped` so that a caller can see it.
#[derive(Debug, Clone, Copy, PartialEq, Eq, Structural)]
pub struct EvenSplit {
    /// The amount each branch receives.
    pub share: u128,
    /// The remainder that no branch receives.
    pub dropped: u128,
}

/// The split of `total` among `branches` branches under the drop-remainder
/// policy.
pub open spec fn even_split(total: u128, branches: nat) -> EvenSplit
    recommends
        branches > 0,
{
    EvenSplit { share: (total as nat / branches) as u128, dropped: (total as nat % branches) as u128 }
}

/// Checks a requested branch count against the ceiling.
pub fn admit_branches(branches: usize) -> (admitted: Result<(), OrchestrationError>)
    ensures
        admitted is Ok <==> within_ceiling(branches as nat),
        admitted matches Err(error) ==> error == OrchestrationError::BudgetExceeded,
{
    if branches < MAX_BRANCHES {
        Ok(())
    } else {
        Err(OrchestrationError::BudgetExceeded)
    }
}

/// Divides `total` evenly among `branches` branches, dropping the remainder.
///
/// No branches is an empty fan-out; a count at or above the ceiling exceeds
/// the budget.
pub fn split_evenly(total: u128, branches: usize) -> (split: Result<EvenSplit, OrchestrationError>)
    ensures
        branches == 0 ==> split == Err::<EvenSplit, _>(OrchestrationError::EmptyFanOut),
        branches >= MAX_BRANCHES ==> split == Err::<EvenSplit, _>(
            OrchestrationError::BudgetExceeded,
        ),
        0 < branches < MAX_BRANCHES ==> split == Ok::<_, OrchestrationError>(
            even_split(total, branches as nat),
        ),
{
    if branches == 0 {
        return Err(OrchestrationError::EmptyFanOut);
    }
    if admit_branches(branches).is_err() {
        return Err(OrchestrationError::BudgetExceeded);
    }
    let count: u128 = branches as u128;
    Ok(EvenSplit { share: total / count, dropped: total % count })
}

/// The calls of `calls`, each with `share` as its transfer.
pub open spec fn funded(calls: Seq<DescriptorView>, share: u128) -> Seq<DescriptorView> {
    Seq::new(calls.len(), |i: int| DescriptorView { transfer: share, ..calls[i] })
}

/// Gives every call of `calls` an equal share of `total`, in the order given.
///
/// Fails as [`split_evenly`] does, before any descriptor is changed.
pub fn fund_evenly(calls: Vec<CallDescriptor>, total: u128) -> (result: Result<
    Vec<CallDescriptor>,
    OrchestrationError,
>)
    ensures
        calls@.len() == 0 ==> result == Err::<Vec<CallDescriptor>, _>(
            OrchestrationError::EmptyFanOut,
        ),
        calls@.len() >= MAX_BRANCHES ==> result == Err::<Vec<CallDescriptor>, _>(
            OrchestrationError::BudgetExceeded,
        ),
        0 < calls@.len() < MAX_BRANCHES ==> result is Ok,
        result matches Ok(funded_calls) ==> descriptor_views(funded_calls@) == funded(
            descriptor_views(calls@),
            even_split(total, calls@.len()).share,
        ),
{
    let split = match split_evenly(total, calls.len()) {
        Ok(split) => split,
        Err(error) => {
            return Err(error);
        },
    };
    let ghost before = descriptor_views(calls@);
    let mut funded_calls: Vec<CallDescriptor> = Vec::new();
    for call in iter: calls
        invariant
            iter.seq() == calls@,
            before == descriptor_views(calls@),
            funded_calls@.len() == iter.index(),
            forall|i: int|
                0 <= i < funded_calls@.len() ==> (#[trigger] funded_calls@[i])@ == (
                DescriptorView { transfer: split.share, ..before[i] }),
    {
        funded_calls.push(call.with_transfer(split.share));
    }
    assert(descriptor_views(funded_calls@) =~= funded(before, split.share));
    Ok(funded_calls)
}

} // verus!
