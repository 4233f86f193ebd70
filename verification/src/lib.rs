//! Core of a staged deployment orchestrator.
//!
//! A [`workflow::Workflow`] rolls one source revision across an ordered list
//! of deployment environments.  The pure state machine in [`processor`]
//! decides, for one workflow and one observation of the continuous-integration
//! provider, the next persisted record and the externally visible actions.
//! [`store`] is the durable-store model with conditional updates, and
//! [`github`] holds the data the CI provider exchanges with the core.
//! Unverified plumbing (HTTP, DynamoDB, the dispatcher loop) lives outside
//! this crate and drives these functions.

pub mod github;
pub mod laws;
pub mod processor;
pub mod store;
pub mod token_cache;
pub mod workflow;
