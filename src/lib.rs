//! Client-side decoder for the spacenavd wire protocol.
//!
//! The daemon that owns a 3D mouse streams one fixed-size frame per event over
//! a local socket. This library states the frame layout and turns a frame into
//! an [`Event`]; reading the socket is left to the caller.

pub mod event;
pub mod frame;
pub mod wire;

pub use event::{Event, BUTTON_PRESS, BUTTON_RELEASE, MOTION};
pub use frame::{decode, FRAME_LEN};
pub use wire::{encode_i32, FIELD_LEN};
