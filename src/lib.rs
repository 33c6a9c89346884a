//! A small register-based bytecode interpreter.
//!
//! The machine has 32 signed 32-bit registers, a program counter into a byte
//! program, and a remainder register written by division. The behaviour of
//! one instruction is the spec function [`vm::step`]; every executable
//! operation is proved against it.
pub mod instruction;
pub mod vm;
pub mod laws;
