//! Orchestration core of an agent pipeline that turns a project description
//! into a generated, built and smoke-tested backend service.
//!
//! The agents are explicit state machines. Every decision they take is a
//! verified function from the current state and an observed event (an oracle
//! reply, a build result, a probe status) to the next state; performing the
//! network calls, builds and probes is left to the caller.

pub mod agent_architect;
pub mod agent_backend;
pub mod agent_basic;
pub mod fact_sheet;
pub mod messages;
pub mod routes;
pub mod task_request;
