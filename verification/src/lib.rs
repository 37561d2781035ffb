//! Compile Lua source text (or a file) into serialized bytecode by driving a
//! single embedded Lua interpreter through its low-level stack protocol.
//!
//! The interpreter itself lives behind a foreign function interface and is
//! operated by an unverified driver. This crate holds everything that can be
//! stated and checked: the status-code taxonomy and its classification, the
//! byte-level handling of foreign strings, and an exact model of the
//! interpreter's value stack across a compile call, proving that every path —
//! success, parse failure, file failure, runtime failure — restores the fixed
//! three-entry stack baseline that makes the interpreter reusable.

pub mod api;
pub mod compiler;
pub mod lua;
pub mod stack;
