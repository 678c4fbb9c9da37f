//! Turns a video reference into a speech-to-text transcript in three output
//! formats, and serves that as tools of a JSON envelope protocol.

use vstd::prelude::*;

pub mod catalog;
pub mod commands;
pub mod engine;
pub mod json;
pub mod output;
pub mod pipeline;
pub mod pipeline_laws;
pub mod protocol;
pub mod server;
pub mod source;
pub mod speech;
pub mod text;
pub mod timefmt;
pub mod tools;
pub mod transcripts;
pub mod types;
