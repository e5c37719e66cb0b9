//! A minimal virtual CPU: a fixed-width byte memory, a small bank of named
//! 16-bit registers, and a fetch-decode-execute loop over a closed three-
//! instruction set.

pub mod bytebuf;
pub mod cpu;
pub mod instructions;
pub mod memory;
pub mod text;
