//! An Intel 8080 toolchain: an assembler for a small assembly syntax, the binary encoding
//! and decoding of instructions, and a CPU that executes them.
pub mod assembler;
pub mod bits;
pub mod cpu;
