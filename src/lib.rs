//! A driver for the CD74HC4067 16-channel analog multiplexer, wired to four
//! select lines and one active-low enable line.
//!
//! The lifecycle of the device is carried in the handle's type: a handle is
//! either [`DisabledState`] or [`EnabledState`], and channel selection is only
//! offered while disabled. Every pin write may fail; a failure never loses the
//! pins, which come back with the error.

pub mod channel;
pub mod pin;
pub mod uniform;
pub mod mux;

pub use pin::OutputPin;
pub use uniform::Cd74hc4067;
pub use mux::{CD74HC4067, DisabledState, EnabledState, Error};
