//! Interrupt-driven scheduling and cross-context communication core for a
//! small radio firmware: a lock-free single-producer/single-consumer
//! telemetry ring buffer, a deadline timer controller, the decision logic of
//! the interrupt handlers, the idle drain loop, and the packet buffer arena.
//!
//! Hardware peripherals (radio, serial, ADC, display) and the wire-protocol
//! state machine are external collaborators: this crate models their inputs
//! and outputs as plain values and verifies everything in between.

use vstd::prelude::*;

pub mod arena;
pub mod beacon;
pub mod bytes;
pub mod checksum;
pub mod handlers;
pub mod idle;
pub mod packet;
pub mod queue;
pub mod record;
pub mod timer;

verus! {

/// A value request exchanged between the two boards of the link.
#[derive(Clone, Copy, Debug, PartialEq, Eq, Structural)]
pub struct Request {
    pub val: u16,
}

} // verus!
