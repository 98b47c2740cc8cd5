//! An in-process code/data patching engine together with the directional
//! row-visibility search it installs as a replacement algorithm.
//!
//! The engine works on an explicit model of the externally owned process
//! image ([`memory::MemoryImage`]) and of the host operating system
//! ([`privilege::Os`]): the layout of the patched binary and the outcomes of
//! the privilege system calls are inputs, and every function that decides or
//! computes over them is verified.

use vstd::prelude::*;

pub mod encoder;
pub mod memory;
pub mod patch;
pub mod privilege;
pub mod relocate;
pub mod rows;
pub mod visibility;

verus! {

/// Errors of the patching engine and of the row search.
#[derive(Clone, Copy, Debug, PartialEq, Eq, Structural)]
pub enum PatchError {
    /// A privilege or handle system call returned this nonzero raw code.
    OsCallFailed(u32),
    /// A search index or a patch address lies outside the valid range.
    OutOfRange,
    /// An operand exceeds its instruction-field width.
    EncodingOverflow,
}

} // verus!
