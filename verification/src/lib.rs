//! Verified core of a screen-recording and clip-export tool.
//!
//! The library orchestrates an external video encoder. It builds the
//! encoder's argument lists, sequences the multi-clip export pipeline
//! (trim, concat, encode, cleanup), and runs the recording-session state
//! machine. Everything here is pure logic with proved contracts; the
//! caller performs the actual subprocess and filesystem work and feeds
//! each outcome back into the state machines.

pub mod cache;
pub mod command;
pub mod config;
pub mod displays;
pub mod error;
pub mod export;
pub mod manifest;
pub mod recorder;
pub mod session;
pub mod text;

pub use error::EncoderError;
