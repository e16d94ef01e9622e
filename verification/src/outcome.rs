//! What the host reports for a branch, and the slot it fills in an aggregate.

use vstd::prelude::*;

use crate::codec::{decode_text, json_text, text_view};
use crate::error::OrchestrationError;

verus! {

/// The outcome of one branch as the host reports it when a graph resolves.
///
/// `P` is what a successful branch carries: the raw payload bytes, or a value
/// that the surrounding glue has already decoded.
#[derive(Debug, PartialEq, Eq)]
pub enum BranchOutcome<P> {
    /// The branch ran and returned a payload.
    Success(P),
    /// The branch failed, for the reason given.
    Failed(String),
    /// The host has not resolved the branch yet. A continuation must never
    /// see this.
    Pending,
}

/// The view of a [`BranchOutcome`].
pub enum OutcomeView<V> {
    Success(V),
    Failed(Seq<char>),
    Pending,
}

impl<P: View> View for BranchOutcome<P> {
    type V = OutcomeView<P::V>;

    open spec fn view(&self) -> OutcomeView<P::V> {
        match self {
            BranchOutcome::Success(payload) => OutcomeView::Success(payload@),
            BranchOutcome::Failed(reason) => OutcomeView::Failed(reason@),
            BranchOutcome::Pending => OutcomeView::Pending,
        }
    }
}

/// One position of an aggregate: the typed value that the branch produced, or
/// the marker of why it produced none.
#[derive(Debug, PartialEq, Eq)]
pub enum Slot<T> {
    /// The branch succeeded and its payload decoded to this value.
    Value(T),
    /// The branch failed, for the reason given.
    BranchFailed(String),
    /// The branch succeeded but its payload did not decode.
    DecodeFailed,
}

/// The view of a [`Slot`].
pub enum SlotView<V> {
    Value(V),
    BranchFailed(Seq<char>),
    DecodeFailed,
}

impl<T: View> View for Slot<T> {
    type V = SlotView<T::V>;

    open spec fn view(&self) -> SlotView<T::V> {
        match self {
            Slot::Value(value) => SlotView::Value(value@),
            Slot::BranchFailed(reason) => SlotView::BranchFailed(reason@),
            Slot::DecodeFailed => SlotView::DecodeFailed,
        }
    }
}

/// The slot that a terminal outcome fills when its payload needs no decoding,
/// and `None` for a pending one.
pub open spec fn settled<T>(outcome: BranchOutcome<T>) -> Option<Slot<T>> {
    match outcome {
        BranchOutcome::Success(value) => Some(Slot::Value(value)),
        BranchOutcome::Failed(reason) => Some(Slot::BranchFailed(reason)),
        BranchOutcome::Pending => None,
    }
}

/// The slot for a payload that was handed to the text decoder.
pub open spec fn decoded_slot(decoded: Option<Seq<char>>) -> SlotView<Seq<char>> {
    match decoded {
        Some(text) => SlotView::Value(text),
        None => SlotView::DecodeFailed,
    }
}

/// The slot that a terminal outcome fills when its payload is expected to
/// hold text, and `None` for a pending one.
pub open spec fn text_slot(outcome: OutcomeView<Seq<u8>>) -> Option<SlotView<Seq<char>>> {
    match outcome {
        OutcomeView::Success(payload) => Some(decoded_slot(json_text(payload))),
        OutcomeView::Failed(reason) => Some(SlotView::BranchFailed(reason)),
        OutcomeView::Pending => None,
    }
}

/// The text that a slot contributes to the values of an aggregate: what it
/// holds, or the empty text where it holds a failure marker.
pub open spec fn slot_text(slot: SlotView<Seq<char>>) -> Seq<char> {
    match slot {
        SlotView::Value(text) => text,
        _ => Seq::empty(),
    }
}

impl<T> Slot<T> {
    /// Fills a slot from an outcome whose payload is already typed.
    ///
    /// A pending outcome is a protocol violation.
    pub fn settle(outcome: BranchOutcome<T>) -> (slot: Result<Slot<T>, OrchestrationError>)
        ensures
            slot is Ok <==> !(outcome is Pending),
            slot matches Ok(filled) ==> Some(filled) == settled(outcome),
            slot matches Err(error) ==> error == OrchestrationError::ProtocolViolation,
    {
        match outcome {
            BranchOutcome::Success(value) => Ok(Slot::Value(value)),
            BranchOutcome::Failed(reason) => Ok(Slot::BranchFailed(reason)),
            BranchOutcome::Pending => Err(OrchestrationError::ProtocolViolation),
        }
    }

    /// Whether the slot holds a value.
    pub fn is_value(&self) -> (held: bool)
        ensures
            held == (self is Value),
    {
        match self {
            Slot::Value(_) => true,
            _ => false,
        }
    }

    /// The value of the slot, or `default` where it holds a failure marker.
    pub fn value_or(self, default: T) -> (value: T)
        ensures
            value == (match self {
                Slot::Value(held) => held,
                _ => default,
            }),
    {
        match self {
            Slot::Value(held) => held,
            _ => default,
        }
    }
}

impl Slot<String> {
    /// The slot for what the text decoder made of a successful payload.
    pub fn from_decoded(decoded: Option<String>) -> (slot: Slot<String>)
        ensures
            slot@ == decoded_slot(text_view(decoded)),
    {
        match decoded {
            Some(text) => Slot::Value(text),
            None => Slot::DecodeFailed,
        }
    }

    /// Fills a slot from a raw outcome whose payload is expected to hold text.
    ///
    /// A payload that does not decode leaves a failure marker in the slot. A
    /// pending outcome is a protocol violation.
    pub fn settle_text(outcome: BranchOutcome<Vec<u8>>) -> (slot: Result<
        Slot<String>,
        OrchestrationError,
    >)
        ensures
            slot is Ok <==> !(outcome is Pending),
            slot matches Ok(filled) ==> Some(filled@) == text_slot(outcome@),
            slot matches Err(error) ==> error == OrchestrationError::ProtocolViolation,
    {
        match outcome {
            BranchOutcome::Success(payload) => Ok(
                Slot::from_decoded(decode_text(payload.as_slice())),
            ),
            BranchOutcome::Failed(reason) => Ok(Slot::BranchFailed(reason)),
            BranchOutcome::Pending => Err(OrchestrationError::ProtocolViolation),
        }
    }

    /// The text of the slot: what it holds, or the empty text where it holds
    /// a failure marker.
    pub fn into_text(self) -> (text: String)
        ensures
            text@ == slot_text(self@),
    {
        match self {
            Slot::Value(text) => text,
            _ => String::new(),
        }
    }
}

} // verus!
