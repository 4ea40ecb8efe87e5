//! Transport and command protocol engine of a CTAPHID security key.
//!
//! The crate turns a stream of fixed-size 64-byte HID packets into complete,
//! bounded application messages and back. Every function is verified: it does
//! not panic, its arithmetic does not overflow, and its contract states what
//! it returns over a mathematical model of the bytes involved.

pub mod consts;
pub mod fido2_internal_error;
pub mod utils;
pub mod fido2_parser;
pub mod fido2_chunk;
pub mod fido2_commands;
pub mod fido2_channel;
pub mod global_buffer;
pub mod fido2_transaction;
