//! A single-session controller for an external raw-video transcoder.
//!
//! The library models everything the controller decides: which argument
//! vector launches the transcoder for a given codec and geometry, whether a
//! frame buffer matches the negotiated frame size, and how the single
//! session slot moves between idle and active. The process itself (spawning,
//! writing to its input pipe, waiting for exit) is operating-system work
//! that a thin driver performs, reporting each outcome back to the
//! controller as a plain value.

pub mod args;
pub mod codec;
pub mod errors;
pub mod numfmt;
pub mod store;

pub use errors::RecorderError;
