//! Dual-stage chat-completion orchestrator.
//!
//! One logical chat completion is produced by two sequential upstream calls:
//! a reasoning provider emits a chain-of-thought trace, and a completion
//! provider consumes that trace together with the original conversation to
//! produce the final answer. This crate holds the verified core: the request
//! validation and stage sequencing, the adapters that shape each stage's
//! request, the merger that tags and orders streamed chunks, and the token
//! usage and cost accounting across both stages. HTTP transport and process
//! bootstrap live outside the library and drive it through plain values.

pub mod adapter;
pub mod error;
pub mod merger;
pub mod models;
pub mod orchestrator;
pub mod pricing;
pub mod usage;
