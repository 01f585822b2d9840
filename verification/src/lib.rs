//! Continuous recording, per-capture transcription and transcript
//! bookkeeping, with the decisions and data handling proved correct.
pub mod text;
pub mod domain;
pub mod merge;
pub mod config;
pub mod ports;
pub mod capture;
pub mod window_capture;
pub mod mixed;
pub mod speaker;
pub mod embedder;
pub mod storage;
pub mod audio;
pub mod cli;
pub mod transcriber;
pub mod logging;
pub mod commands;
pub mod messages;
