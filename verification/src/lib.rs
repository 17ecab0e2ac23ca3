//! Transcode orchestration: locating the encoder binaries, reading probe
//! reports, compiling output presets into encoder arguments, decoding the
//! encoder's progress lines and supervising single and batch jobs.
//!
//! All times are whole microseconds and all rates are fixed-point integers,
//! so that every rule of the library is stated and proved over integers.

pub mod commands;
pub mod decimal;
pub mod error;
pub mod ffprobe;
pub mod json;
pub mod locator;
pub mod models;
pub mod preset;
pub mod progress;
pub mod text;
pub mod transcode;
pub mod validator;
