//! What holds of the router over any course of events.

pub mod activation;
pub mod execution;
pub mod generation;
pub mod operations;
