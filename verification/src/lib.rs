use vstd::prelude::*;

pub mod error;
pub mod module;
pub mod parser;
pub mod varint;

verus! {

/// The preamble-level picture of a binary module: the 4-byte magic tag decoded
/// as text, and the 32-bit version that follows it.
#[derive(Debug)]
pub struct Module {
    pub magic_number: String,
    pub version: u32,
}

} // verus!
