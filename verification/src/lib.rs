//! Control core of a battery-powered decorative ornament.
//!
//! The device alternates two LED banks in a fixed four-phase pattern and
//! fails over between a main and a backup battery when the supply voltage
//! drops below a comparator threshold.  This crate holds the part of the
//! firmware with real state and ordering contracts, verified with Verus:
//!
//! - [`line`]: the core's image of the binary output lines it owns, plus the
//!   reserved feedback sense inputs.
//! - [`string_controller`]: the latch driver for one bistable LED output and
//!   the four-phase sequencer that alternates the two LED strings.
//! - [`power`]: the dual-battery failover controller with make-before-break
//!   switching.
//! - [`notify`]: the single-slot, latest-value-wins notification cell that
//!   carries voltage events from interrupt context to the failover task.
//!
//! Clock configuration, pin assignment, register access and the scheduling
//! loops are the embedding layer's work and stay outside this crate; it hands
//! the core already-configured control lines and drives the periodic tick and
//! the voltage events.

pub mod line;
pub mod notify;
pub mod power;
pub mod string_controller;
