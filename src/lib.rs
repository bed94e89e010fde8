//! Host-side orchestration of sandboxed WebAssembly guests: configuration,
//! discovery of guest binaries, the compiled-module cache, the JSON envelope
//! carried over the guest's standard streams, and the classification of how a
//! run ended into success or failure.
pub mod cache;
pub mod config;
pub mod discovery;
pub mod envelope;
pub mod error;
pub mod json;
pub mod outcome;
pub mod output;
pub mod sandbox;
pub mod text;
