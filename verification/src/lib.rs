//! Task lease and lifecycle engine for distributing simulation jobs to
//! workers: tasks are created against validated configuration references,
//! claimed exclusively by workers in FIFO order, resolved into execution
//! bundles, and driven to a terminal state.

pub mod catalog;
pub mod clock;
pub mod dto;
pub mod error;
pub mod laws;
pub mod records;
pub mod service;
pub mod store;
pub mod status;
