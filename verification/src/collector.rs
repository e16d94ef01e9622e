//! The continuation side of an invocation: reading the outcomes of a resolved
//! graph back by position and producing the aggregate that the caller sees.
//!
//! Failures stay where they happen. A branch that failed, or whose payload
//! did not decode, leaves a marker in its own slot and touches no other. The
//! one thing that aborts a collection is a pending outcome, which the host
//! guarantees never to show to a continuation.

use vstd::prelude::*;

use crate::error::OrchestrationError;
use crate::outcome::{slot_text, text_slot, BranchOutcome, OutcomeView, Slot, SlotView};

verus! {

/// How the outcomes of a resolved graph are exposed.
#[derive(Debug, Clone, Copy, PartialEq, Eq, Structural)]
pub enum CollectionPolicy {
    /// Only the outcome of the last step of a chain is exposed. What the
    /// earlier steps did is not recoverable.
    ChainResult,
    /// The outcome of every branch of a join is exposed at its position,
    /// whatever its siblings did.
    JoinResult,
}

/// What went wrong in one branch of an aggregate.
#[derive(Debug, PartialEq, Eq)]
pub enum NoticeKind {
    /// The branch failed, for the reason given.
    BranchFailed(String),
    /// The payload of the branch did not decode.
    DecodeFailed,
}

/// A report of a failure that was absorbed into an aggregate, for whoever
/// keeps the logs.
#[derive(Debug, PartialEq, Eq)]
pub struct Notice {
    /// The position of the branch.
    pub position: usize,
    /// What went wrong there.
    pub kind: NoticeKind,
}

/// The view of a [`Notice`].
pub enum NoticeView {
    BranchFailed { position: nat, reason: Seq<char> },
    DecodeFailed { position: nat },
}

impl View for Notice {
    type V = NoticeView;

    open spec fn view(&self) -> NoticeView {
        match self.kind {
            NoticeKind::BranchFailed(reason) => NoticeView::BranchFailed {
                position: self.position as nat,
                reason: reason@,
            },
            NoticeKind::DecodeFailed => NoticeView::DecodeFailed { position: self.position as nat },
        }
    }
}

/// The outcomes of a resolved graph, one slot per branch, in the positional
/// order that the graph was built with.
#[derive(Debug, PartialEq, Eq)]
pub struct AggregateResult<T> {
    /// The slot of each branch.
    pub slots: Vec<Slot<T>>,
}

impl<T: View> View for AggregateResult<T> {
    type V = Seq<SlotView<T::V>>;

    open spec fn view(&self) -> Seq<SlotView<T::V>> {
        Seq::new(self.slots@.len(), |i: int| self.slots@[i]@)
    }
}

/// The views of `outcomes`, in the same order.
pub open spec fn outcome_views(outcomes: Seq<BranchOutcome<Vec<u8>>>) -> Seq<OutcomeView<Seq<u8>>> {
    Seq::new(outcomes.len(), |i: int| outcomes[i]@)
}

/// Whether one of `outcomes` is still pending.
pub open spec fn any_pending(outcomes: Seq<OutcomeView<Seq<u8>>>) -> bool {
    exists|i: int| 0 <= i < outcomes.len() && #[trigger] outcomes[i] is Pending
}

/// The aggregate of a join: the slot at each position is made from the
/// outcome at that position and from nothing else.
pub open spec fn join_slots(outcomes: Seq<OutcomeView<Seq<u8>>>) -> Seq<SlotView<Seq<char>>> {
    Seq::new(outcomes.len(), |i: int| text_slot(outcomes[i])->0)
}

/// The aggregate of a chain: a single slot, made from the last outcome.
pub open spec fn chain_slots(outcomes: Seq<OutcomeView<Seq<u8>>>) -> Seq<SlotView<Seq<char>>> {
    seq![text_slot(outcomes.last())->0]
}

/// The values of an aggregate of texts: at each position the decoded text,
/// or the empty text where the slot holds a failure marker.
pub open spec fn slot_texts(slots: Seq<SlotView<Seq<char>>>) -> Seq<Seq<char>> {
    Seq::new(slots.len(), |i: int| slot_text(slots[i]))
}

/// The notices for the first `upto` slots: one for each failure marker, in
/// positional order.
pub open spec fn notices_upto(slots: Seq<SlotView<Seq<char>>>, upto: nat) -> Seq<NoticeView>
    decreases upto,
{
    if upto == 0 {
        Seq::empty()
    } else {
        let position = (upto - 1) as nat;
        let earlier = notices_upto(slots, position);
        match slots[position as int] {
            SlotView::Value(_) => earlier,
            SlotView::BranchFailed(reason) => earlier.push(
                NoticeView::BranchFailed { position, reason },
            ),
            SlotView::DecodeFailed => earlier.push(NoticeView::DecodeFailed { position }),
        }
    }
}

/// Collects the outcomes of a join. Every outcome fills the slot at its own
/// position: a success with the text it decodes to, anything else with a
/// failure marker.
///
/// Collection is refused, as a protocol violation, exactly where an outcome
/// is still pending.
pub fn collect_join(outcomes: Vec<BranchOutcome<Vec<u8>>>) -> (collected: Result<
    AggregateResult<String>,
    OrchestrationError,
>)
    ensures
        collected is Err <==> any_pending(outcome_views(outcomes@)),
        collected matches Err(error) ==> error == OrchestrationError::ProtocolViolation,
        collected matches Ok(aggregate) ==> aggregate@ == join_slots(outcome_views(outcomes@)),
{
    let ghost views = outcome_views(outcomes@);
    let mut slots: Vec<Slot<String>> = Vec::new();
    for outcome in iter: outcomes
        invariant
            iter.seq() == outcomes@,
            views == outcome_views(outcomes@),
            slots@.len() == iter.index(),
            forall|i: int| 0 <= i < slots@.len() ==> !(#[trigger] views[i] is Pending),
            forall|i: int| 0 <= i < slots@.len() ==> Some((#[trigger] slots@[i])@) == text_slot(views[i]),
    {
        let ghost position = iter.index() as int;
        assert(views[position] == outcome@);
        match Slot::settle_text(outcome) {
            Ok(slot) => {
                slots.push(slot);
            },
            Err(error) => {
                assert(views[position] is Pending);
                return Err(error);
            },
        }
    }
    let aggregate = AggregateResult { slots };
    assert(aggregate@ =~= join_slots(views));
    Ok(aggregate)
}

/// Collects the outcome of a chain. Only the last of `outcomes` is looked at:
/// it fills the single slot of the aggregate, and nothing that an earlier
/// step did can be seen in the result.
///
/// No outcomes is an empty chain; a pending last outcome is a protocol
/// violation.
pub fn collect_chain(outcomes: Vec<BranchOutcome<Vec<u8>>>) -> (collected: Result<
    AggregateResult<String>,
    OrchestrationError,
>)
    ensures
        outcomes@.len() == 0 ==> collected == Err::<AggregateResult<String>, _>(
            OrchestrationError::EmptyChain,
        ),
        outcomes@.len() > 0 && outcomes@.last() is Pending ==> collected == Err::<
            AggregateResult<String>,
            _,
        >(OrchestrationError::ProtocolViolation),
        outcomes@.len() > 0 && !(outcomes@.last() is Pending) ==> collected is Ok,
        collected matches Ok(aggregate) ==> aggregate@ == chain_slots(outcome_views(outcomes@)),
{
    let mut outcomes = outcomes;
    let ghost views = outcome_views(outcomes@);
    match outcomes.pop() {
        None => Err(OrchestrationError::EmptyChain),
        Some(last) => {
            assert(views.last() == last@);
            match Slot::settle_text(last) {
                Ok(slot) => {
                    let mut slots: Vec<Slot<String>> = Vec::new();
                    slots.push(slot);
                    let aggregate = AggregateResult { slots };
                    assert(aggregate@ =~= chain_slots(views));
                    Ok(aggregate)
                },
                Err(error) => Err(error),
            }
        },
    }
}

/// Collects `outcomes` under the policy named.
pub fn collect(policy: CollectionPolicy, outcomes: Vec<BranchOutcome<Vec<u8>>>) -> (collected:
    Result<AggregateResult<String>, OrchestrationError>)
    ensures
        policy == CollectionPolicy::JoinResult ==> {
            &&& collected is Err <==> any_pending(outcome_views(outcomes@))
            &&& collected matches Err(error) ==> error == OrchestrationError::ProtocolViolation
            &&& collected matches Ok(aggregate) ==> aggregate@ == join_slots(
                outcome_views(outcomes@),
            )
        },
        policy == CollectionPolicy::ChainResult ==> {
            &&& outcomes@.len() == 0 ==> collected == Err::<AggregateResult<String>, _>(
                OrchestrationError::EmptyChain,
            )
            &&& outcomes@.len() > 0 && outcomes@.last() is Pending ==> collected == Err::<
                AggregateResult<String>,
                _,
            >(OrchestrationError::ProtocolViolation)
            &&& outcomes@.len() > 0 && !(outcomes@.last() is Pending) ==> collected is Ok
            &&& collected matches Ok(aggregate) ==> aggregate@ == chain_slots(
                outcome_views(outcomes@),
            )
        },
{
    match policy {
        CollectionPolicy::JoinResult => collect_join(outcomes),
        CollectionPolicy::ChainResult => collect_chain(outcomes),
    }
}

impl<T> AggregateResult<T> {
    /// How many slots the aggregate has.
    pub fn len(&self) -> (len: usize)
        ensures
            len == self.slots@.len(),
    {
        self.slots.len()
    }
}

impl AggregateResult<String> {
    /// The notices of the aggregate: one for each failure marker, in
    /// positional order.
    pub fn notices(&self) -> (notices: Vec<Notice>)
        ensures
            Seq::new(notices@.len(), |i: int| notices@[i]@) == notices_upto(self@, self@.len()),
    {
        let mut notices: Vec<Notice> = Vec::new();
        let count = self.slots.len();
        for position in 0..count
            invariant
                count == self.slots@.len(),
                Seq::new(notices@.len(), |i: int| notices@[i]@) == notices_upto(
                    self@,
                    position as nat,
                ),
        {
            let ghost before = Seq::new(notices@.len(), |i: int| notices@[i]@);
            match &self.slots[position] {
                Slot::Value(_) => {},
                Slot::BranchFailed(reason) => {
                    notices.push(Notice { position, kind: NoticeKind::BranchFailed(reason.clone()) });
                },
                Slot::DecodeFailed => {
                    notices.push(Notice { position, kind: NoticeKind::DecodeFailed });
                },
            }
            assert(self@[position as int] == self.slots@[position as int]@);
            assert(Seq::new(notices@.len(), |i: int| notices@[i]@) =~= notices_upto(
                self@,
                (position + 1) as nat,
            ));
        }
        notices
    }

    /// The values of the aggregate: at each position the decoded text, or
    /// the empty text where the slot holds a failure marker.
    pub fn into_values(self) -> (values: Vec<String>)
        ensures
            Seq::new(values@.len(), |i: int| values@[i]@) == slot_texts(self@),
    {
        let ghost slots = self@;
        let mut values: Vec<String> = Vec::new();
        for slot in iter: self.slots
            invariant
                iter.seq() == self.slots@,
                slots == self@,
                values@.len() == iter.index(),
                forall|i: int| 0 <= i < values@.len() ==> (#[trigger] values@[i])@ == slot_text(slots[i]),
        {
            assert(slots[iter.index() as int] == slot@);
            values.push(slot.into_text());
        }
        assert(Seq::new(values@.len(), |i: int| values@[i]@) =~= slot_texts(slots));
        values
    }
}

/// Under the join policy a branch is isolated from its siblings: two
/// collections that agree on the outcome at a position agree on the slot at
/// that position, whatever the other outcomes are.
pub proof fn lemma_join_isolates_branches(
    first: Seq<OutcomeView<Seq<u8>>>,
    second: Seq<OutcomeView<Seq<u8>>>,
    position: int,
)
    requires
        0 <= position < first.len(),
        0 <= position < second.len(),
        first[position] == second[position],
    ensures
        join_slots(first)[position] == join_slots(second)[position],
{
}

/// Under the chain policy nothing but the last step is exposed: two
/// collections that agree on the last outcome produce the same aggregate,
/// whatever the earlier steps did.
pub proof fn lemma_chain_exposes_last_only(
    first: Seq<OutcomeView<Seq<u8>>>,
    second: Seq<OutcomeView<Seq<u8>>>,
)
    requires
        first.len() > 0,
        second.len() > 0,
        first.last() == second.last(),
    ensures
        chain_slots(first) == chain_slots(second),
{
}

} // verus!
