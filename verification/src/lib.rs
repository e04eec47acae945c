//! Verified core of a webhook-delivery worker.
//!
//! A worker takes job-completion messages from a queue, posts each to the
//! tenant's URL with a bounded number of attempts, records the terminal
//! outcome and acknowledges the message. This crate holds the decisions of
//! that pipeline as functions on plain values; the caller performs the
//! network and queue operations and reports their results back.

pub mod config;
pub mod decoder;
pub mod delivery;
pub mod dispatcher;
pub mod json;
pub mod lifecycle;
pub mod logger;
pub mod models;
pub mod parse;
pub mod retry;
pub mod text;
pub mod worker;
