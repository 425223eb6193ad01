//! Driver for SSD18030-family character LCD controllers (DOGS164-style
//! 4 x 16 modules) on a two-wire serial bus.
//!
//! `commands` encodes settings into instruction bytes, `config` holds the
//! settings a session starts from, `bus` names the transport a session
//! runs on (bus writes and pauses, with a log of both), and `ssd18030_i2c`
//! sequences the instructions of each operation.

pub mod bus;
pub mod commands;
pub mod config;
mod frame;
pub mod ssd18030_i2c;
