//! The description of one external invocation.

use vstd::prelude::*;

use crate::identity::ExternalIdentity;

verus! {

/// What a [`CallDescriptor`] says, as plain mathematical values.
pub struct DescriptorView {
    pub target: Seq<char>,
    pub method: Seq<char>,
    pub payload: Seq<u8>,
    pub budget: u64,
    pub transfer: u128,
}

/// One external invocation: the method to run on a target, the payload handed
/// to it, the resource units it may spend and the amount transferred with it.
///
/// A descriptor cannot be changed once it is made; a different call is a
/// different descriptor.
#[derive(Debug, PartialEq, Eq)]
pub struct CallDescriptor {
    target: ExternalIdentity,
    method: String,
    payload: Vec<u8>,
    budget: u64,
    transfer: u128,
}

impl View for CallDescriptor {
    type V = DescriptorView;

    closed spec fn view(&self) -> DescriptorView {
        DescriptorView {
            target: self.target@,
            method: self.method@,
            payload: self.payload@,
            budget: self.budget,
            transfer: self.transfer,
        }
    }
}

/// The views of `descriptors`, in the same order.
pub open spec fn descriptor_views(descriptors: Seq<CallDescriptor>) -> Seq<DescriptorView> {
    Seq::new(descriptors.len(), |i: int| descriptors[i]@)
}

impl CallDescriptor {
    /// Describes a call of `method` on `target`.
    pub fn new(
        target: ExternalIdentity,
        method: String,
        payload: Vec<u8>,
        budget: u64,
        transfer: u128,
    ) -> (descriptor: CallDescriptor)
        ensures
            descriptor@ == (DescriptorView {
                target: target@,
                method: method@,
                payload: payload@,
                budget,
                transfer,
            }),
    {
        CallDescriptor { target, method, payload, budget, transfer }
    }

    /// The identity the call is sent to.
    pub fn target(&self) -> (target: &ExternalIdentity)
        ensures
            target@ == self@.target,
    {
        &self.target
    }

    /// The name of the method to run.
    pub fn method(&self) -> (method: &str)
        ensures
            method@ == self@.method,
    {
        self.method.as_str()
    }

    /// The bytes handed to the method.
    pub fn payload(&self) -> (payload: &[u8])
        ensures
            payload@ == self@.payload,
    {
        self.payload.as_slice()
    }

    /// The resource units the call may spend.
    pub fn budget(&self) -> (budget: u64)
        ensures
            budget == self@.budget,
    {
        self.budget
    }

    /// The amount transferred with the call.
    pub fn transfer(&self) -> (transfer: u128)
        ensures
            transfer == self@.transfer,
    {
        self.transfer
    }

    /// The same call with `transfer` as the amount sent along.
    pub fn with_transfer(self, transfer: u128) -> (descriptor: CallDescriptor)
        ensures
            descriptor@ == (DescriptorView { transfer, ..self@ }),
    {
        CallDescriptor {
            target: self.target,
            method: self.method,
            payload: self.payload,
            budget: self.budget,
            transfer,
        }
    }
}

impl Clone for CallDescriptor {
    fn clone(&self) -> (copy: Self)
        ensures
            copy@ == self@,
    {
        CallDescriptor {
            target: self.target.clone(),
            method: self.method.clone(),
            payload: self.payload.clone(),
            budget: self.budget,
            transfer: self.transfer,
        }
    }
}

} // verus!
