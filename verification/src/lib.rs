//! A task-lifetime and cancellation coordinator.
//!
//! An execution scope groups many concurrently running units of work under
//! one controllable lifetime: every task registered with the scope can be
//! told to stop as a single operation.  The coordinator tracks each live
//! task in a slot table ([`registry`]), hands every task a single-use stop
//! signal ([`signal`]), decides when a task's wrapper is finished
//! ([`wrapper`]), and resolves the races between a task finishing on its
//! own and a concurrent shutdown request ([`scope`]).  The laws the whole
//! lifecycle obeys are stated and proved in [`model`].

pub mod metrics;
pub mod model;
pub mod registry;
pub mod scope;
pub mod signal;
pub mod wrapper;
