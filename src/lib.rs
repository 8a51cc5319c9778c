//! Turns a video's speech into an SRT subtitle document.
//!
//! The library holds the logic of the tool: the subtitle formatter, the WAV
//! checks of the audio extractor, the decisions of the model store, the stage
//! machine of the transcription pipeline and the state machine that a desktop
//! front end drives. The surrounding program performs the I/O that these
//! decide on.
use vstd::prelude::*;

pub mod text;
pub mod subtitle;
pub mod audio;
pub mod config;
pub mod cli;
pub mod model;
pub mod transcribe;
pub mod pipeline;
pub mod session;
pub mod resources;
