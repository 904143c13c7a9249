//! Verified core of a network-controllable PWM fan/LED dimmer.
//!
//! The crate holds the logic of the firmware that has real invariants: the
//! binary codec for the persisted duty-sequence configuration, the rule that
//! turns a stored blob into a usable configuration, the duty-cycle sequencer
//! that drives the output hardware tick by tick, the connectivity
//! supervisor's self-heal decisions, and the derivation of the device
//! identity. Hardware drivers, the HTTP server and the filesystem are
//! capability edges that live outside this crate; they exchange plain values
//! with the functions here.

pub mod codec;
pub mod config;
pub mod identity;
pub mod sequencer;
pub mod storage;
pub mod supervisor;
