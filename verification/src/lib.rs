//! An instruction-level core for an 8-bit, Game-Boy-class machine.
//!
//! The crate holds the register file, the address router that splits the
//! 16-bit bus into regions, the two opcode tables, and the engines that
//! fetch, decode and execute one instruction per step. Every function
//! carries a contract over a mathematical model of the machine's state.

pub mod cpu;
pub mod display;
pub mod fault;
pub mod game_boy;
pub mod io_ports;
pub mod machine;
pub mod memory;
pub mod processor;
pub mod word;
