//! A backend-agnostic background job queue: jobs, the retry policy, the
//! queue counters, a bounded in-process backend, the bookkeeping of a
//! remote list backend and the worker's step decisions, together with the
//! plain types of the surrounding service (settings, errors, responses).

pub mod auth;
pub mod cache;
pub mod config;
pub mod dto;
pub mod error;
pub mod http_error;
pub mod job;
pub mod memory;
pub mod policy;
pub mod remote;
pub mod response;
pub mod stats;
pub mod text;
pub mod worker;
