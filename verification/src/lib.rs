//! A minimal stack-based bytecode interpreter.
//!
//! Programs are flat sequences of 16-bit instruction words. The `opcodes`
//! module maps words to tagged instruction values and back, the `stack`
//! module provides the bounded value stack the instructions operate on, and
//! the `vm` module drives the fetch-decode-execute cycle. The `converter`
//! module holds the option parsing and line transformation of a small
//! text-transformation utility that lives beside the interpreter.

pub mod converter;
pub mod errors;
pub mod opcodes;
pub mod stack;
pub mod vm;
