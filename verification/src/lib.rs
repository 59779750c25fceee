//! Concurrency core of an interrupt-driven firmware stack for one core,
//! without heap or operating system: tasks of static priority bound to
//! interrupt sources, and shared resources protected by raising the priority
//! threshold to each resource's ceiling instead of locking.
//!
//! The core:
//! - `threshold`: the token for the priority level in force;
//! - `resource`: a value behind a ceiling, reached through scoped claims;
//! - `task`, `config`: the task and resource tables and their checks;
//! - `dispatcher`: interrupt entry and return, claims, pending interrupts;
//! - `model`, `safety`: the dispatcher's state as mathematics, its
//!   invariant, and what follows from it.
//!
//! The board:
//! - `time`, `frequency`: units, bus frequencies and clock tree settings;
//! - `led`, `serial`, `buffer`: images of the peripherals the tasks use.
//!
//! The firmware:
//! - `blinky`, `roulette`, `loopback`, `preemption`: the task bodies;
//! - `wiring`: the tables of the roulette firmware and its dispatch.

pub mod threshold;
pub mod resource;
pub mod task;
pub mod error;
pub mod config;
pub mod model;
pub mod dispatcher;
pub mod safety;
pub mod time;
pub mod frequency;
pub mod led;
pub mod serial;
pub mod buffer;
pub mod blinky;
pub mod roulette;
pub mod loopback;
pub mod preemption;
pub mod wiring;
