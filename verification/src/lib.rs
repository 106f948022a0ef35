//! Core of a multi-room line-oriented chat relay.
//!
//! Rooms are created on demand and never removed; every room keeps an
//! append-only transcript of rendered lines and a broadcast distribution
//! point. Each connection runs a small state machine (login, client
//! selection, active message loop) over lines framed out of a raw byte
//! stream. The surrounding binary owns the sockets and the scheduling;
//! everything that decides or computes lives here.

use vstd::prelude::*;

pub mod clock;
pub mod fanout;
pub mod framer;
pub mod registry;
pub mod render;
pub mod session;
pub mod text;

verus! {

} // verus!
