//! The transaction-submission engine of an NFT service, with the plain logic
//! of the service around it.
//!
//! A mint is submitted through `retry::SubmissionState`, a state machine that
//! tells its driver what to do next (query a fee, submit once, stop) and takes
//! back what happened. Failed submissions are sorted by `classify::classify`
//! into a new nonce, a raised fee (`fee::escalate`) or a fatal error, and at
//! most `retry::MAX_RETRIES` submissions are made.
pub mod auction;
pub mod auth;
pub mod chain;
pub mod classify;
pub mod config;
pub mod db;
pub mod error;
pub mod fee;
pub mod graph;
pub mod requests;
pub mod retry;
pub mod routes;
pub mod text;
