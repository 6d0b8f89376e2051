//! A CHIP-8 virtual machine: opcode decoding, the fetch-decode-execute cycle,
//! register, memory and stack semantics, timer decay, and display-buffer
//! mutation with sprite-draw collision detection.
#![verifier::loop_isolation(false)]

pub mod font;
pub mod instruction;
pub mod laws;
pub mod model;
pub mod rng;
pub mod vm;
