//! Core logic of a screen-recording pipeline: frame compositing, audio ring
//! buffering, encoder timestamp derivation, and the recording session state
//! machine, with machine-checked contracts.

pub mod audio;
pub mod capture;
pub mod compositor;
pub mod devices;
pub mod encoder;
pub mod error;
pub mod files;
pub mod history;
pub mod ids;
pub mod manager;
pub mod paths;
pub mod settings;
pub mod state;
pub mod status;
pub mod timestamp;
