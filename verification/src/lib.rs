//! Paginated discovery and bounded fan-out processing of token records,
//! written as state machines that perform no input or output themselves.
//!
//! A driver fetches pages, performs the service calls that the
//! [`coordinator::Coordinator`] asks for, and hands each answer back.

pub mod counter;
pub mod http_structs;
pub mod text;
pub mod identifier;
pub mod decimal;
pub mod limiter;
pub mod cursor;
pub mod service;
pub mod options;
pub mod pipeline;
pub mod batch;
pub mod coordinator;
pub mod storage;
pub mod ledger;
pub mod report;
