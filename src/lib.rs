//! Streaming capture orchestration: the per-subscription producer state
//! machine, confidence gating of analysis results, and derivation of
//! context metadata from recognized text.

pub mod analysis;
pub mod metadata;
pub mod producer;
