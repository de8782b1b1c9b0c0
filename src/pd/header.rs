use vstd::prelude::*;

verus! {

/// The fixed 24-byte header of a record file.
#[derive(Debug, PartialEq, Eq, Structural, Clone, Copy)]
pub struct Header {
    pub version: u32,
    pub total_size: u32,
    pub token_count: u32,
    pub arg_count: u32,
    pub string_count: u32,
    pub strings_size: u32,
}

} // verus!
