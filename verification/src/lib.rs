//! Adapter between a generic frame-based encoder interface and the rav1e AV1
//! encoder engine.
//!
//! The adapter keeps a configuration, owns one live session of the engine,
//! copies picture planes into the engine's frames, and turns the engine's
//! status signals and packets into the interface's errors and packets.
//!
//! Policy: the session is opened when the adapter is made, from the default
//! configuration, and stays as it was opened. Options and stream parameters
//! set later change the stored configuration only.

pub mod error;
pub mod status;
pub mod config;
pub mod options;
pub mod params;
pub mod frame;
pub mod packet;
pub mod backend;
pub mod encoder;
pub mod descriptor;
