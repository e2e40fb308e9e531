//! Playback engine for byte-code music data: four one-bit voices, three
//! pulse waves and one percussion sampler, rendered sample by sample into an
//! interleaved 8-bit stream.
//!
//! - `format` holds the binary command stream: constants, tables, and the
//!   decoding of one command.
//! - `model` is the synthesizer as a mathematical machine.
//! - `mmml_engine` is the executable synthesizer, proved against the model.
//! - `laws` states what follows from the model for every stream.
//! - `mmml_data` tells compiled data from source text.
//! - `args` holds the arguments of a player.
//! - `error` names the ways in which a stream can fail to play, and what
//!   a rendering passes over without failing.

pub mod args;
pub mod error;
pub mod format;
pub mod laws;
pub mod mmml_data;
pub mod mmml_engine;
pub mod model;
