//! Audio-source, capture, configuration and protocol logic of the whisper
//! overlay client.

pub mod text;
pub mod json;
pub mod source;
pub mod capture;
pub mod pcm;
pub mod config;
pub mod cli;
pub mod protocol;
pub mod settings;
