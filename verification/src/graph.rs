//! Call graphs: descriptors combined by sequential chaining and parallel
//! joining, and the builders that compose them.
//!
//! A graph is a finite tree. Its branches are the operands of its joins, read
//! from left to right; the position of a branch in that order is the only
//! name it has, and it is where the outcome of the branch is found when the
//! graph has resolved.

use vstd::prelude::*;

use crate::budget::{admit_branches, within_ceiling, MAX_BRANCHES};
use crate::descriptor::{descriptor_views, CallDescriptor, DescriptorView};
use crate::error::OrchestrationError;
use crate::identity::ExternalIdentity;

verus! {

/// The shape and content of a [`CallGraph`] as a mathematical tree.
pub enum GraphView {
    /// A single call.
    Call(DescriptorView),
    /// The second operand runs after the first; only the outcome of the last
    /// call is visible.
    Chain(Box<GraphView>, Box<GraphView>),
    /// The operands run independently; the outcomes of both are visible.
    Join(Box<GraphView>, Box<GraphView>),
}

/// Whether every call of `calls` goes to `target`.
pub open spec fn all_target(calls: Seq<DescriptorView>, target: Seq<char>) -> bool {
    forall|i: int| 0 <= i < calls.len() ==> (#[trigger] calls[i]).target == target
}

/// Whether every call of `calls` goes to the target of the first.
pub open spec fn single_target(calls: Seq<DescriptorView>) -> bool {
    all_target(calls, calls[0].target)
}

impl GraphView {
    /// Every call of the graph, in construction order.
    pub open spec fn calls(self) -> Seq<DescriptorView>
        decreases self,
    {
        match self {
            GraphView::Call(descriptor) => seq![descriptor],
            GraphView::Chain(first, then) => first.calls() + then.calls(),
            GraphView::Join(left, right) => left.calls() + right.calls(),
        }
    }

    /// The branches of the graph in positional order, each with the calls it
    /// runs in sequence.
    pub open spec fn branches(self) -> Seq<Seq<DescriptorView>>
        decreases self,
    {
        match self {
            GraphView::Call(descriptor) => seq![seq![descriptor]],
            GraphView::Chain(first, then) => seq![first.calls() + then.calls()],
            GraphView::Join(left, right) => left.branches() + right.branches(),
        }
    }

    /// How many outcomes the graph produces.
    pub open spec fn branch_count(self) -> nat {
        self.branches().len()
    }

    /// The call whose outcome stands at each position: the last call of each
    /// branch.
    pub open spec fn visible(self) -> Seq<DescriptorView> {
        Seq::new(self.branches().len(), |i: int| self.branches()[i].last())
    }

    /// Whether the graph holds no join.
    pub open spec fn is_sequence(self) -> bool
        decreases self,
    {
        match self {
            GraphView::Call(_) => true,
            GraphView::Chain(first, then) => first.is_sequence() && then.is_sequence(),
            GraphView::Join(_, _) => false,
        }
    }

    /// Whether every chain of the graph is a plain sequence of calls to one
    /// target.
    pub open spec fn well_shaped(self) -> bool
        decreases self,
    {
        match self {
            GraphView::Call(_) => true,
            GraphView::Chain(first, then) => first.is_sequence() && then.is_sequence()
                && single_target(first.calls() + then.calls()),
            GraphView::Join(left, right) => left.well_shaped() && right.well_shaped(),
        }
    }

    /// Whether the graph may be submitted: it is well shaped and its branch
    /// count is under the ceiling.
    pub open spec fn well_formed(self) -> bool {
        self.well_shaped() && within_ceiling(self.branch_count())
    }
}

/// The chain that runs `steps` in order: a left fold of `Chain`.
pub open spec fn fold_chain(steps: Seq<DescriptorView>) -> GraphView
    recommends
        steps.len() > 0,
    decreases steps.len(),
{
    if steps.len() <= 1 {
        GraphView::Call(steps[0])
    } else {
        GraphView::Chain(
            Box::new(fold_chain(steps.drop_last())),
            Box::new(GraphView::Call(steps.last())),
        )
    }
}

/// The fan-out over `leaves`: a left fold of `Join`.
pub open spec fn fold_join(leaves: Seq<DescriptorView>) -> GraphView
    recommends
        leaves.len() > 0,
    decreases leaves.len(),
{
    if leaves.len() <= 1 {
        GraphView::Call(leaves[0])
    } else {
        GraphView::Join(
            Box::new(fold_join(leaves.drop_last())),
            Box::new(GraphView::Call(leaves.last())),
        )
    }
}

/// A composition of external calls.
#[derive(Debug, PartialEq, Eq)]
pub enum CallGraph {
    /// A single call.
    Call(CallDescriptor),
    /// The second operand runs after the first on the same target; only the
    /// outcome of the last call is visible.
    Chain(Box<CallGraph>, Box<CallGraph>),
    /// The operands run independently; the outcomes of both are visible.
    Join(Box<CallGraph>, Box<CallGraph>),
}

impl View for CallGraph {
    type V = GraphView;

    open spec fn view(&self) -> GraphView
        decreases self,
    {
        match self {
            CallGraph::Call(descriptor) => GraphView::Call(descriptor@),
            CallGraph::Chain(first, then) => GraphView::Chain(
                Box::new((**first).view()),
                Box::new((**then).view()),
            ),
            CallGraph::Join(left, right) => GraphView::Join(
                Box::new((**left).view()),
                Box::new((**right).view()),
            ),
        }
    }
}

/// Every graph holds a call, and every branch of it runs at least one.
pub proof fn lemma_branches_nonempty(graph: GraphView)
    ensures
        graph.calls().len() > 0,
        graph.branch_count() > 0,
        forall|i: int| 0 <= i < graph.branches().len() ==> (#[trigger] graph.branches()[i]).len() > 0,
    decreases graph,
{
    match graph {
        GraphView::Call(_) => {},
        GraphView::Chain(first, then) => {
            lemma_branches_nonempty(*first);
            lemma_branches_nonempty(*then);
        },
        GraphView::Join(left, right) => {
            lemma_branches_nonempty(*left);
            lemma_branches_nonempty(*right);
        },
    }
}

/// Calls run one after another all go to `target` exactly where the calls
/// of both parts do.
pub proof fn lemma_targets_of_concat(
    first: Seq<DescriptorView>,
    then: Seq<DescriptorView>,
    target: Seq<char>,
)
    ensures
        all_target(first + then, target) <==> all_target(first, target) && all_target(
            then,
            target,
        ),
{
    if all_target(first + then, target) {
        assert forall|i: int| 0 <= i < first.len() implies (#[trigger] first[i]).target == target by {
            assert((first + then)[i] == first[i]);
        }
        assert forall|i: int| 0 <= i < then.len() implies (#[trigger] then[i]).target == target by {
            assert((first + then)[first.len() + i] == then[i]);
        }
    }
}

/// A folded chain runs its steps in the order given, as a single branch.
pub proof fn lemma_fold_chain(steps: Seq<DescriptorView>)
    requires
        steps.len() > 0,
    ensures
        fold_chain(steps).calls() == steps,
        fold_chain(steps).is_sequence(),
        fold_chain(steps).branches() == seq![steps],
        fold_chain(steps).visible() == seq![steps.last()],
        single_target(steps) ==> fold_chain(steps).well_formed(),
    decreases steps.len(),
{
    if steps.len() > 1 {
        let last = GraphView::Call(steps.last());
        lemma_fold_chain(steps.drop_last());
        assert(last.is_sequence() && last.calls() == seq![steps.last()]);
        assert(steps.drop_last() + seq![steps.last()] =~= steps);
    } else {
        assert(seq![steps[0]] =~= steps);
    }
    assert(fold_chain(steps).visible() =~= seq![steps.last()]);
}

/// A folded fan-out has one branch per leaf, in the order given.
pub proof fn lemma_fold_join(leaves: Seq<DescriptorView>)
    requires
        leaves.len() > 0,
    ensures
        fold_join(leaves).calls() == leaves,
        fold_join(leaves).branch_count() == leaves.len(),
        fold_join(leaves).branches() == Seq::new(leaves.len(), |i: int| seq![leaves[i]]),
        fold_join(leaves).visible() == leaves,
        fold_join(leaves).well_shaped(),
    decreases leaves.len(),
{
    if leaves.len() > 1 {
        let last = GraphView::Call(leaves.last());
        lemma_fold_join(leaves.drop_last());
        assert(last.well_shaped() && last.calls() == seq![leaves.last()]);
        assert(last.branches() == seq![seq![leaves.last()]]);
        assert(leaves.drop_last() + seq![leaves.last()] =~= leaves);
        assert(fold_join(leaves).branches() =~= Seq::new(
            leaves.len(),
            |i: int| seq![leaves[i]],
        ));
    } else {
        assert(seq![leaves[0]] =~= leaves);
        assert(fold_join(leaves).branches() =~= Seq::new(
            leaves.len(),
            |i: int| seq![leaves[i]],
        ));
    }
    assert(fold_join(leaves).visible() =~= leaves);
}

/// The views of the branches in `branches`, in the same order.
pub open spec fn branch_views(branches: Seq<Vec<CallDescriptor>>) -> Seq<Seq<DescriptorView>> {
    Seq::new(branches.len(), |i: int| descriptor_views(branches[i]@))
}

impl CallGraph {
    /// How many outcomes the graph produces, saturating at `usize::MAX`.
    pub fn branch_count(&self) -> (count: usize)
        ensures
            count == if self@.branch_count() <= usize::MAX {
                self@.branch_count()
            } else {
                usize::MAX as nat
            },
        decreases self,
    {
        match self {
            CallGraph::Call(_) => 1,
            CallGraph::Chain(_, _) => 1,
            CallGraph::Join(left, right) => left.branch_count().saturating_add(
                right.branch_count(),
            ),
        }
    }

    /// The last call of the graph in construction order.
    pub fn last_call(&self) -> (call: &CallDescriptor)
        ensures
            call@ == self@.calls().last(),
        decreases self,
    {
        match self {
            CallGraph::Call(descriptor) => descriptor,
            CallGraph::Chain(first, then) => {
                proof {
                    lemma_branches_nonempty(then@);
                }
                then.last_call()
            },
            CallGraph::Join(left, right) => {
                proof {
                    lemma_branches_nonempty(right@);
                }
                right.last_call()
            },
        }
    }

    /// Looks for the branch at `position`. Where the graph has that many
    /// branches, the result is the call whose outcome stands there; where it
    /// has fewer, the result is how far `position` lies beyond them.
    fn locate(&self, position: usize) -> (found: Result<&CallDescriptor, usize>)
        ensures
            position < self@.branch_count() ==> found is Ok,
            found matches Ok(call) ==> position < self@.branch_count() && call@
                == self@.visible()[position as int],
            found matches Err(beyond) ==> beyond == position - self@.branch_count(),
        decreases self,
    {
        match self {
            CallGraph::Call(descriptor) => {
                if position == 0 {
                    Ok(descriptor)
                } else {
                    Err(position - 1)
                }
            },
            CallGraph::Chain(_, _) => {
                if position == 0 {
                    Ok(self.last_call())
                } else {
                    Err(position - 1)
                }
            },
            CallGraph::Join(left, right) => {
                match left.locate(position) {
                    Ok(call) => Ok(call),
                    Err(beyond) => right.locate(beyond),
                }
            },
        }
    }

    /// The call whose outcome stands at `position`, where the graph has such
    /// a position.
    pub fn visible_at(&self, position: usize) -> (call: Option<&CallDescriptor>)
        ensures
            call is Some <==> position < self@.branch_count(),
            call matches Some(descriptor) ==> descriptor@ == self@.visible()[position as int],
    {
        match self.locate(position) {
            Ok(call) => Some(call),
            Err(_) => None,
        }
    }

    /// The first call of the graph in construction order.
    pub fn first_call(&self) -> (call: &CallDescriptor)
        ensures
            call@ == self@.calls().first(),
        decreases self,
    {
        match self {
            CallGraph::Call(descriptor) => descriptor,
            CallGraph::Chain(first, then) => {
                proof {
                    lemma_branches_nonempty(first@);
                }
                first.first_call()
            },
            CallGraph::Join(left, right) => {
                proof {
                    lemma_branches_nonempty(left@);
                }
                left.first_call()
            },
        }
    }

    /// Whether the graph holds no join.
    pub fn is_sequence(&self) -> (plain: bool)
        ensures
            plain == self@.is_sequence(),
        decreases self,
    {
        match self {
            CallGraph::Call(_) => true,
            CallGraph::Chain(first, then) => first.is_sequence() && then.is_sequence(),
            CallGraph::Join(_, _) => false,
        }
    }

    /// Whether every call of the graph goes to `target`.
    pub fn targets_only(&self, target: &ExternalIdentity) -> (only: bool)
        ensures
            only == all_target(self@.calls(), target@),
        decreases self,
    {
        match self {
            CallGraph::Call(descriptor) => {
                assert(self@.calls()[0] == descriptor@);
                descriptor.target().same_as(target)
            },
            CallGraph::Chain(first, then) => {
                let only = first.targets_only(target) && then.targets_only(target);
                proof {
                    lemma_targets_of_concat(first@.calls(), then@.calls(), target@);
                }
                only
            },
            CallGraph::Join(left, right) => {
                let only = left.targets_only(target) && right.targets_only(target);
                proof {
                    lemma_targets_of_concat(left@.calls(), right@.calls(), target@);
                }
                only
            },
        }
    }

    /// Whether every chain of the graph is a plain sequence of calls to one
    /// target.
    pub fn is_well_shaped(&self) -> (shaped: bool)
        ensures
            shaped == self@.well_shaped(),
        decreases self,
    {
        match self {
            CallGraph::Call(_) => true,
            CallGraph::Chain(first, then) => {
                proof {
                    lemma_branches_nonempty(first@);
                }
                first.is_sequence() && then.is_sequence() && self.targets_only(
                    self.first_call().target(),
                )
            },
            CallGraph::Join(left, right) => left.is_well_shaped() && right.is_well_shaped(),
        }
    }

    /// Checks that the graph may be submitted.
    ///
    /// A chain that holds a join, or that calls more than one target, has an
    /// invalid target. A well shaped graph whose branches reach the ceiling
    /// exceeds the budget.
    pub fn validate(&self) -> (checked: Result<(), OrchestrationError>)
        ensures
            checked is Ok <==> self@.well_formed(),
            !self@.well_shaped() ==> checked == Err::<(), _>(OrchestrationError::InvalidTarget),
            self@.well_shaped() && !within_ceiling(self@.branch_count()) ==> checked == Err::<
                (),
                _,
            >(OrchestrationError::BudgetExceeded),
    {
        if !self.is_well_shaped() {
            return Err(OrchestrationError::InvalidTarget);
        }
        admit_branches(self.branch_count())
    }

    fn append_calls(&self, calls: &mut Vec<CallDescriptor>)
        ensures
            descriptor_views(final(calls)@) == descriptor_views(old(calls)@) + self@.calls(),
        decreases self,
    {
        match self {
            CallGraph::Call(descriptor) => {
                calls.push(descriptor.clone());
                assert(descriptor_views(calls@) =~= descriptor_views(old(calls)@)
                    + self@.calls());
            },
            CallGraph::Chain(first, then) => {
                first.append_calls(calls);
                then.append_calls(calls);
                assert(descriptor_views(calls@) =~= descriptor_views(old(calls)@)
                    + self@.calls());
            },
            CallGraph::Join(left, right) => {
                left.append_calls(calls);
                right.append_calls(calls);
                assert(descriptor_views(calls@) =~= descriptor_views(old(calls)@)
                    + self@.calls());
            },
        }
    }

    /// Every call of the graph, in construction order.
    pub fn calls(&self) -> (calls: Vec<CallDescriptor>)
        ensures
            descriptor_views(calls@) == self@.calls(),
    {
        let mut calls: Vec<CallDescriptor> = Vec::new();
        self.append_calls(&mut calls);
        assert(descriptor_views(calls@) =~= self@.calls());
        calls
    }

    fn append_branches(&self, branches: &mut Vec<Vec<CallDescriptor>>)
        ensures
            branch_views(final(branches)@) == branch_views(old(branches)@) + self@.branches(),
        decreases self,
    {
        match self {
            CallGraph::Call(_) => {
                branches.push(self.calls());
                assert(branch_views(branches@) =~= branch_views(old(branches)@)
                    + self@.branches());
            },
            CallGraph::Chain(_, _) => {
                branches.push(self.calls());
                assert(branch_views(branches@) =~= branch_views(old(branches)@)
                    + self@.branches());
            },
            CallGraph::Join(left, right) => {
                left.append_branches(branches);
                right.append_branches(branches);
                assert(branch_views(branches@) =~= branch_views(old(branches)@)
                    + self@.branches());
            },
        }
    }

    /// The branches of the graph in positional order, each with the calls it
    /// runs in sequence.
    pub fn branches(&self) -> (branches: Vec<Vec<CallDescriptor>>)
        ensures
            branch_views(branches@) == self@.branches(),
    {
        let mut branches: Vec<Vec<CallDescriptor>> = Vec::new();
        self.append_branches(&mut branches);
        assert(branch_views(branches@) =~= self@.branches());
        branches
    }
}

/// Composes `descriptors` into a chain that runs them in order on one target.
///
/// The chain is a single branch: only the outcome of its last call is ever
/// visible. A chain needs at least one call, and every call of it must name
/// the target of the first.
pub fn chain(descriptors: Vec<CallDescriptor>) -> (built: Result<CallGraph, OrchestrationError>)
    ensures
        descriptors@.len() == 0 ==> built == Err::<CallGraph, _>(OrchestrationError::EmptyChain),
        descriptors@.len() > 0 && !single_target(descriptor_views(descriptors@)) ==> built
            == Err::<CallGraph, _>(OrchestrationError::InvalidTarget),
        descriptors@.len() > 0 && single_target(descriptor_views(descriptors@)) ==> built is Ok,
        built matches Ok(graph) ==> graph@ == fold_chain(descriptor_views(descriptors@))
            && graph@.well_formed(),
{
    let ghost steps = descriptor_views(descriptors@);
    let mut built: Option<CallGraph> = None;
    for descriptor in iter: descriptors
        invariant
            iter.seq() == descriptors@,
            steps == descriptor_views(descriptors@),
            iter.index() == 0 ==> built is None,
            iter.index() > 0 ==> built is Some && built->0@ == fold_chain(
                steps.take(iter.index() as int),
            ) && single_target(steps.take(iter.index() as int)),
    {
        let ghost done = iter.index() as int;
        assert(steps.take(done + 1).drop_last() =~= steps.take(done));
        assert(steps.take(done + 1).last() == descriptor@);
        let leaf = CallGraph::Call(descriptor);
        assert(leaf@ == GraphView::Call(steps[done]));
        let extended = match built {
            None => leaf,
            Some(graph) => {
                proof {
                    lemma_fold_chain(steps.take(done));
                    assert(steps.take(done).last() == steps[done - 1]);
                    assert(steps.take(done)[done - 1].target == steps.take(done)[0].target);
                }
                if !graph.last_call().target().same_as(leaf.last_call().target()) {
                    assert(steps[done].target != steps[0].target);
                    return Err(OrchestrationError::InvalidTarget);
                }
                assert(single_target(steps.take(done + 1))) by {
                    assert forall|i: int| 0 <= i < done + 1 implies (#[trigger] steps.take(
                        done + 1,
                    )[i]).target == steps.take(done + 1)[0].target by {
                        if i < done {
                            assert(steps.take(done)[i].target == steps.take(done)[0].target);
                        }
                    }
                }
                CallGraph::Chain(Box::new(graph), Box::new(leaf))
            },
        };
        assert(extended@ == fold_chain(steps.take(done + 1)));
        assert(single_target(steps.take(done + 1)));
        built = Some(extended);
    }
    match built {
        None => Err(OrchestrationError::EmptyChain),
        Some(graph) => {
            proof {
                assert(steps.take(steps.len() as int) =~= steps);
                lemma_fold_chain(steps);
            }
            Ok(graph)
        },
    }
}

/// Joins two graphs so that they run independently and the outcomes of both
/// stay visible: those of `left` first, then those of `right`.
///
/// Joining is refused where the branches of both reach the ceiling.
pub fn join(left: CallGraph, right: CallGraph) -> (built: Result<CallGraph, OrchestrationError>)
    ensures
        !within_ceiling(left@.branch_count() + right@.branch_count()) ==> built == Err::<
            CallGraph,
            _,
        >(OrchestrationError::BudgetExceeded),
        within_ceiling(left@.branch_count() + right@.branch_count()) ==> built == Ok::<
            _,
            OrchestrationError,
        >(CallGraph::Join(Box::new(left), Box::new(right))),
        built matches Ok(graph) ==> graph@.branches() == left@.branches() + right@.branches(),
        built is Ok && left@.well_shaped() && right@.well_shaped() ==> built->Ok_0@.well_formed(),
{
    let branches = left.branch_count().saturating_add(right.branch_count());
    match admit_branches(branches) {
        Ok(()) => Ok(CallGraph::Join(Box::new(left), Box::new(right))),
        Err(error) => Err(error),
    }
}

/// Builds the parallel fan-out over `descriptors`: a left fold of [`join`]
/// that gives every descriptor a branch of its own, at the position it has in
/// `descriptors`.
///
/// The count is checked before anything is built: no descriptors is an empty
/// fan-out, and a count at or above the ceiling exceeds the budget.
pub fn fan_out(descriptors: Vec<CallDescriptor>) -> (built: Result<CallGraph, OrchestrationError>)
    ensures
        descriptors@.len() == 0 ==> built == Err::<CallGraph, _>(OrchestrationError::EmptyFanOut),
        descriptors@.len() >= MAX_BRANCHES ==> built == Err::<CallGraph, _>(
            OrchestrationError::BudgetExceeded,
        ),
        0 < descriptors@.len() < MAX_BRANCHES ==> built is Ok,
        built matches Ok(graph) ==> {
            &&& graph@ == fold_join(descriptor_views(descriptors@))
            &&& graph@.well_formed()
            &&& graph@.branch_count() == descriptors@.len()
            &&& graph@.visible() == descriptor_views(descriptors@)
        },
{
    if descriptors.len() == 0 {
        return Err(OrchestrationError::EmptyFanOut);
    }
    if admit_branches(descriptors.len()).is_err() {
        return Err(OrchestrationError::BudgetExceeded);
    }
    let ghost leaves = descriptor_views(descriptors@);
    let mut built: Option<CallGraph> = None;
    for descriptor in iter: descriptors
        invariant
            iter.seq() == descriptors@,
            leaves == descriptor_views(descriptors@),
            descriptors@.len() < MAX_BRANCHES,
            iter.index() == 0 ==> built is None,
            iter.index() > 0 ==> built is Some && built->0@ == fold_join(
                leaves.take(iter.index() as int),
            ),
    {
        let ghost done = iter.index() as int;
        assert(leaves.take(done + 1).drop_last() =~= leaves.take(done));
        assert(leaves.take(done + 1).last() == descriptor@);
        let leaf = CallGraph::Call(descriptor);
        let extended = match built {
            None => leaf,
            Some(graph) => {
                proof {
                    lemma_fold_join(leaves.take(done));
                    assert(leaf@.branches().len() == 1);
                }
                match join(graph, leaf) {
                    Ok(joined) => joined,
                    Err(error) => {
                        return Err(error);
                    },
                }
            },
        };
        built = Some(extended);
    }
    match built {
        None => Err(OrchestrationError::EmptyFanOut),
        Some(graph) => {
            proof {
                assert(leaves.take(leaves.len() as int) =~= leaves);
                lemma_fold_join(leaves);
            }
            Ok(graph)
        },
    }
}

/// The descriptors of `descriptors` in the order that `order` names: position
/// `i` of the result holds `descriptors[order[i]]`.
pub open spec fn reordered(descriptors: Seq<DescriptorView>, order: Seq<int>) -> Seq<
    DescriptorView,
> {
    Seq::new(order.len(), |i: int| descriptors[order[i]])
}

/// Joining is associative: regrouping the operands of two joins changes
/// neither the branches nor the position of any of them.
pub proof fn lemma_join_associative(a: GraphView, b: GraphView, c: GraphView)
    ensures
        GraphView::Join(Box::new(GraphView::Join(Box::new(a), Box::new(b))), Box::new(c)).branches()
            == GraphView::Join(
            Box::new(a),
            Box::new(GraphView::Join(Box::new(b), Box::new(c))),
        ).branches(),
        GraphView::Join(Box::new(GraphView::Join(Box::new(a), Box::new(b))), Box::new(c)).visible()
            == GraphView::Join(
            Box::new(a),
            Box::new(GraphView::Join(Box::new(b), Box::new(c))),
        ).visible(),
{
    let left_first = GraphView::Join(Box::new(a), Box::new(b));
    let right_first = GraphView::Join(Box::new(b), Box::new(c));
    let grouped_left = GraphView::Join(Box::new(left_first), Box::new(c));
    let grouped_right = GraphView::Join(Box::new(a), Box::new(right_first));
    assert(left_first.branches() == a.branches() + b.branches());
    assert(right_first.branches() == b.branches() + c.branches());
    assert(grouped_left.branches() =~= grouped_right.branches());
}

/// Positions follow the order of the input and nothing else: where the input
/// of a fan-out is reordered, the call at every position of the new graph is
/// the call that the reordering put there.
pub proof fn lemma_fan_out_positions_follow_input(descriptors: Seq<DescriptorView>, order: Seq<int>)
    requires
        descriptors.len() > 0,
        order.len() == descriptors.len(),
        forall|i: int| 0 <= i < order.len() ==> 0 <= #[trigger] order[i] < descriptors.len(),
    ensures
        fold_join(reordered(descriptors, order)).branch_count() == descriptors.len(),
        forall|i: int|
            0 <= i < order.len() ==> #[trigger] fold_join(
                reordered(descriptors, order),
            ).visible()[i] == fold_join(descriptors).visible()[order[i]],
{
    lemma_fold_join(descriptors);
    lemma_fold_join(reordered(descriptors, order));
}

} // verus!
