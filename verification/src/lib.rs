//! Composition and resolution of asynchronous calls to external services.
//!
//! A caller describes each remote invocation with a [`descriptor::CallDescriptor`],
//! combines descriptors into a [`graph::CallGraph`] by sequential chaining and
//! parallel joining under a fixed branch ceiling, hands the graph to a transport
//! host, and finally reads the per-branch outcomes back by position.

pub mod budget;
pub mod codec;
pub mod collector;
pub mod contract;
pub mod descriptor;
pub mod error;
pub mod graph;
pub mod handoff;
pub mod identity;
pub mod outcome;
