//! Orchestration core for a live-restreaming service: it plans media
//! pipelines, lays out adaptive-bitrate output directories, and tracks the
//! lifecycle of every active stream in a session registry.

pub mod manager;
pub mod manifest;
pub mod registry;
pub mod session;
pub mod structures;
pub mod topology;
