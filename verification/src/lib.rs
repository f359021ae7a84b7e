//! Verified core of a battery-powered environmental telemetry node.
//!
//! On every wake-up the node joins a wireless network, takes one sensor
//! snapshot, shows it on a small panel, publishes it to a message broker and
//! goes back to deep sleep. This crate holds the decisions of that duty
//! cycle as state machines over plain values: a caller performs each action
//! on the hardware and reports the outcome as the next event.
//!
//! - [`network`]: scan entries, channel hint, dual-mode configuration, link
//!   status and ping summary.
//! - [`connector`]: the connection state machine.
//! - [`sensor`]: the snapshot and the sensor reader's error policy.
//! - [`display`]: the three text lines and the clear/draw/flush sequence.
//! - [`telemetry`]: topics, messages and the broker session sequence.
//! - [`cycle`]: the duty-cycle controller that chains the stages.
//! - [`course`]: what holds of every run of a cycle.

pub mod network;
pub mod connector;
pub mod sensor;
pub mod display;
pub mod telemetry;
pub mod cycle;
pub mod course;
