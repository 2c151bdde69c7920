//! Reverse tethering over adb: the rules of the relay and of the command line.
//!
//! A device opens a tunnel to the relay and sends raw IP packets through it.
//! The relay routes each packet to the connection of its flow and writes the
//! answers back. The commands install, start and stop the client on the device
//! through `adb`.
//!
//! Everything here computes on plain values. Sockets, processes and clocks are
//! worked by the program around the crate, which hands in what came of them.

pub mod adb;
pub mod adb_setup;
pub mod commands;
pub mod detect;
pub mod execution_error;
pub mod io_error;
pub mod relay;
pub mod text;
