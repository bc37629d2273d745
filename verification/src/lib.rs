//! A client engine for a binary publish/subscribe wire protocol, together
//! with the small display bookkeeping types that the surrounding firmware
//! uses: a packet codec working on bounded byte buffers, a pure client
//! state machine that yields at most one pending action per call, a
//! keep-alive tracker, and the session orchestration logic that sequences
//! connect, subscribe, publish and the steady-state tick.
//!
//! All I/O lives outside this crate: every function here is a deterministic
//! computation on plain values, specified by its contract.

pub mod bufwrite;
pub mod blocks;
pub mod client;
pub mod clock;
pub mod color;
pub mod config;
pub mod data;
pub mod programs;
pub mod stackstr;
pub mod systemd;
pub mod codec;
pub mod error;
pub mod fsm;
pub mod keep_alive;
pub mod render;
pub mod stack;
pub mod decode;
pub mod encode;
pub mod packet;
pub mod wire;

use vstd::prelude::*;

verus! {

/// Width of the LED matrix in pixels.
pub const NUM_LEDS_X: usize = 32;

/// Height of the LED matrix in pixels.
pub const NUM_LEDS_Y: usize = 16;

/// Total number of LEDs on the matrix.
pub const NUM_LEDS: usize = 512;

} // verus!
