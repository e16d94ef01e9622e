//! The handoff of a finished graph to the transport host.
//!
//! Submitting is the host's business. What is decided here is what may be
//! submitted at all: a [`Submission`] exists only for a graph that passed
//! validation, so a request that fails at construction time leaves nothing
//! that could be sent.

use vstd::prelude::*;

use crate::budget::{even_split, fund_evenly, funded, within_ceiling, MAX_BRANCHES};
use crate::descriptor::{descriptor_views, CallDescriptor, DescriptorView};
use crate::error::OrchestrationError;
use crate::graph::{
    chain,
    fan_out,
    fold_chain,
    fold_join,
    lemma_branches_nonempty,
    single_target,
    CallGraph,
    GraphView,
};

verus! {

/// The callback that the host invokes once every branch of a graph has
/// reached a terminal outcome.
#[derive(Debug, PartialEq, Eq)]
pub struct ContinuationRef {
    /// The name of the callback method.
    pub method: String,
    /// The resource units reserved for running the callback, where the
    /// caller reserves any.
    pub reserved_budget: Option<u64>,
}

/// The view of a [`ContinuationRef`].
pub struct ContinuationView {
    pub method: Seq<char>,
    pub reserved_budget: Option<u64>,
}

impl View for ContinuationRef {
    type V = ContinuationView;

    open spec fn view(&self) -> ContinuationView {
        ContinuationView { method: self.method@, reserved_budget: self.reserved_budget }
    }
}

/// The leaves of a fan-out over `calls`: the calls themselves, or, where a
/// total is transferred, the calls with an even share of it each.
pub open spec fn fan_out_leaves(calls: Seq<DescriptorView>, transfer: Option<u128>) -> Seq<
    DescriptorView,
> {
    match transfer {
        Some(total) => funded(calls, even_split(total, calls.len()).share),
        None => calls,
    }
}

/// The view of a [`Submission`].
pub struct SubmissionView {
    pub graph: GraphView,
    pub continuation: ContinuationView,
}

/// A validated graph together with the continuation that collects its
/// outcomes: everything the host needs for one submission.
#[derive(Debug, PartialEq, Eq)]
pub struct Submission {
    graph: CallGraph,
    continuation: ContinuationRef,
}

impl View for Submission {
    type V = SubmissionView;

    closed spec fn view(&self) -> SubmissionView {
        SubmissionView { graph: self.graph@, continuation: self.continuation@ }
    }
}

impl Submission {
    #[verifier::type_invariant]
    spec fn submittable(&self) -> bool {
        self.graph@.well_formed()
    }

    /// Pairs `graph` with `continuation`, provided the graph may be
    /// submitted.
    ///
    /// Fails as [`CallGraph::validate`] does, and then nothing is left to
    /// submit.
    pub fn prepare(graph: CallGraph, continuation: ContinuationRef) -> (prepared: Result<
        Submission,
        OrchestrationError,
    >)
        ensures
            prepared is Ok <==> graph@.well_formed(),
            prepared matches Ok(submission) ==> submission@ == (SubmissionView {
                graph: graph@,
                continuation: continuation@,
            }),
            !graph@.well_shaped() ==> prepared == Err::<Submission, _>(
                OrchestrationError::InvalidTarget,
            ),
            graph@.well_shaped() && !within_ceiling(graph@.branch_count()) ==> prepared == Err::<
                Submission,
                _,
            >(OrchestrationError::BudgetExceeded),
    {
        match graph.validate() {
            Ok(()) => Ok(Submission { graph, continuation }),
            Err(error) => Err(error),
        }
    }

    /// Plans a chain: `steps` run in order on one target, and the
    /// continuation finds the outcome of the last.
    ///
    /// Fails as [`chain`] does, and then nothing is left to submit.
    pub fn chained(steps: Vec<CallDescriptor>, continuation: ContinuationRef) -> (planned: Result<
        Submission,
        OrchestrationError,
    >)
        ensures
            steps@.len() == 0 ==> planned == Err::<Submission, _>(OrchestrationError::EmptyChain),
            steps@.len() > 0 && !single_target(descriptor_views(steps@)) ==> planned == Err::<
                Submission,
                _,
            >(OrchestrationError::InvalidTarget),
            steps@.len() > 0 && single_target(descriptor_views(steps@)) ==> planned is Ok,
            planned matches Ok(submission) ==> submission@ == (SubmissionView {
                graph: fold_chain(descriptor_views(steps@)),
                continuation: continuation@,
            }),
    {
        let graph = chain(steps)?;
        Submission::prepare(graph, continuation)
    }

    /// Plans a fan-out: every call of `calls` runs as a branch of its own,
    /// at the position it has in `calls`. Where `transfer` holds a total, it
    /// is first divided evenly among the calls, the remainder dropped.
    ///
    /// The count is checked before anything else: no calls are an empty
    /// fan-out, and a count at or above the ceiling exceeds the budget. Either
    /// way nothing is left to submit.
    pub fn fanned_out(
        calls: Vec<CallDescriptor>,
        transfer: Option<u128>,
        continuation: ContinuationRef,
    ) -> (planned: Result<Submission, OrchestrationError>)
        ensures
            calls@.len() == 0 ==> planned == Err::<Submission, _>(OrchestrationError::EmptyFanOut),
            calls@.len() >= MAX_BRANCHES ==> planned == Err::<Submission, _>(
                OrchestrationError::BudgetExceeded,
            ),
            0 < calls@.len() < MAX_BRANCHES ==> planned is Ok,
            planned matches Ok(submission) ==> submission@ == (SubmissionView {
                graph: fold_join(fan_out_leaves(descriptor_views(calls@), transfer)),
                continuation: continuation@,
            }) && submission@.graph.branch_count() == calls@.len(),
    {
        let leaves = match transfer {
            Some(total) => fund_evenly(calls, total)?,
            None => calls,
        };
        let graph = fan_out(leaves)?;
        Submission::prepare(graph, continuation)
    }

    /// The graph to submit, which is always well formed.
    pub fn graph(&self) -> (graph: &CallGraph)
        ensures
            graph@ == self@.graph,
            graph@.well_formed(),
    {
        proof {
            use_type_invariant(self);
        }
        &self.graph
    }

    /// The continuation to register.
    pub fn continuation(&self) -> (continuation: &ContinuationRef)
        ensures
            continuation@ == self@.continuation,
    {
        &self.continuation
    }

    /// How many outcomes the continuation will find, which is known before
    /// the graph resolves.
    pub fn expected_outcomes(&self) -> (count: usize)
        ensures
            count == self@.graph.branch_count(),
            within_ceiling(count as nat),
            count > 0,
    {
        proof {
            use_type_invariant(self);
            lemma_branches_nonempty(self.graph@);
        }
        self.graph.branch_count()
    }
}

} // verus!
