//! The core of a daemon that takes battery charge thresholds from a named
//! pipe and writes them to two control points.
//!
//! The library decides; the program around it reads and writes. `channel`
//! provisions the pipe, `command` reads a payload, `threshold` validates the
//! values and renders what is written, and `daemon` ties them into the loop
//! that serves. `permissions` holds the permission bits and their octal
//! text, `creation` tells why a FIFO could not be made, `reconciliation`
//! states what provisioning achieves, and `text` and `numerals` state what
//! the string functions underneath return.

pub mod channel;
pub mod command;
pub mod creation;
pub mod daemon;
pub mod numerals;
pub mod permissions;
pub mod reconciliation;
pub mod text;
pub mod threshold;
