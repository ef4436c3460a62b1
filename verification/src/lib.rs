//! A check that an account can log in to a network controller and use the
//! session it is given.
//!
//! The controller speaks a REST API with cookie sessions. A run logs in, lists
//! the sites under the session's cookie, and, where a device was named, lets
//! that device onto the guest network. The first failure ends the run.
//!
//! This crate is the protocol engine of such a run. It writes each request,
//! reads each answer, and decides what comes next; it sends nothing itself.
//! A caller holds an [`engine::Engine`], does what its [`engine::Action`]
//! says, and reports back with an [`engine::Event`], until the action is to
//! leave.
//!
//! - [`engine`]: the run as a state machine, and what holds of every run.
//! - [`protocol`]: the three calls, request and answer, one by one.
//! - [`envelope`]: the `{"meta": .., "data": ..}` wrapper of every answer.
//! - [`json`]: JSON documents as trees, read and written through `serde_json`.
//! - [`http`]: requests and responses as plain values.
//! - [`model`]: endpoint, credentials, session, site, errors.
//! - [`report`]: the line that tells a failure.
//! - [`text`]: decimal numerals and text comparison.

pub mod engine;
pub mod envelope;
pub mod http;
pub mod json;
pub mod model;
pub mod protocol;
pub mod report;
pub mod text;
