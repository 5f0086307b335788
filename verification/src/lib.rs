//! Driving an ADIR01P infrared transmitter.
//!
//! The device plays back a pulse pattern that is loaded into it over USB. A
//! code is entered as a string of hexadecimal digits; [`encoder`] turns it
//! into the pattern, [`framer`] cuts the pattern into the reports that the
//! device takes, and [`send`](mod@send) lays down the order of the writes
//! and what becomes of a failure. [`device`] names the device and picks it
//! among the attached ones. Nothing here performs a transfer: the caller
//! owns the USB handle and does what a [`Transfer`] asks for.

pub mod device;
pub mod encoder;
pub mod error;
pub mod framer;
pub mod send;

pub use crate::encoder::encode;
pub use crate::error::Error;
pub use crate::send::{send, Action, Phase, Stage, Transfer};
