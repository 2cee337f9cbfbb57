//! TuxTalk: a voice-activated command daemon.
//!
//! The library holds the daemon's verified core: the request resolver that
//! turns a `[action]argument` line into a shell command line or a descriptive
//! failure message, the typed configuration with its two lookup mappings and
//! its hot-replaceable store, the audio chunker and bounded chunk queue that
//! feed transcription, the transcript assembly, and the path layout for the
//! configuration file and model assets.

pub mod audio;
pub mod commands;
pub mod config;
pub mod ipc;
pub mod paths;
pub mod store;
pub mod text;
pub mod transcript;
