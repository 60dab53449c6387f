//! Orchestration of external PDF tools: locating and verifying them across
//! deployment layouts, building their invocations, the merge, split and
//! compress decisions, and a serialized, durable export transaction.

pub mod args;
pub mod compress;
pub mod error;
pub mod export;
pub mod guard;
pub mod locate;
pub mod ops;
pub mod payload;
pub mod run;
pub mod text;
