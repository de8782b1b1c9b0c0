use vstd::prelude::*;

use crate::pd::Tokens;

verus! {

/// The three immutable sections of a loaded record: the tokens with their
/// names resolved, the raw 32-bit arguments, and the string table.
///
/// A record is only read after loading; each decode session keeps its own
/// cursor into it (see [`crate::format::de::Deserializer`]).
#[derive(Debug)]
pub struct PersistentDataRecord {
    pub tokens: Vec<Tokens>,
    pub args: Vec<u32>,
    pub strings: Vec<String>,
}

} // verus!
