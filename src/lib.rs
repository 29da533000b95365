//! An interpreter for a small 8-bit register machine: a flat byte memory, sixteen
//! registers, a return-address stack and a fetch-decode-execute loop over 16-bit
//! instruction words.
pub mod cpu;
pub mod decode;
pub mod error;
pub mod laws;
pub mod memory;
