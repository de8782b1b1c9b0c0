//! The record model: packed tokens, their types, the header and the record.
mod header;
mod persistent_data;

pub use header::Header;
pub use persistent_data::PersistentDataRecord;

use vstd::prelude::*;

verus! {

/// A token of the stream: its kind, and the name it carries.
#[derive(Debug, PartialEq, Eq, Clone)]
#[allow(non_camel_case_types)]
pub enum Tokens {
    BEGIN_TOKEN(String),
    END_TOKEN(String),
    SINT_TOKEN(String),
    UINT_TOKEN(String),
    FLOAT_TOKEN(String),
    STRING_TOKEN(String),
    FLAG_TOKEN(String),
    EXTEND_TOKEN(String),
}

impl Tokens {
    /// The name the token carries.
    pub open spec fn name(&self) -> Seq<char> {
        match self {
            Tokens::BEGIN_TOKEN(v) => v@,
            Tokens::END_TOKEN(v) => v@,
            Tokens::SINT_TOKEN(v) => v@,
            Tokens::UINT_TOKEN(v) => v@,
            Tokens::FLOAT_TOKEN(v) => v@,
            Tokens::STRING_TOKEN(v) => v@,
            Tokens::FLAG_TOKEN(v) => v@,
            Tokens::EXTEND_TOKEN(v) => v@,
        }
    }

    /// The 3-bit tag that stands for the token's kind in a packed token word.
    pub open spec fn tag(&self) -> int {
        match self {
            Tokens::BEGIN_TOKEN(_) => 0,
            Tokens::END_TOKEN(_) => 1,
            Tokens::SINT_TOKEN(_) => 2,
            Tokens::UINT_TOKEN(_) => 3,
            Tokens::FLOAT_TOKEN(_) => 4,
            Tokens::STRING_TOKEN(_) => 5,
            Tokens::FLAG_TOKEN(_) => 6,
            Tokens::EXTEND_TOKEN(_) => 7,
        }
    }

    pub fn value(&self) -> (r: &String)
        ensures
            r@ == self.name(),
    {
        match self {
            Tokens::BEGIN_TOKEN(val) => val,
            Tokens::END_TOKEN(val) => val,
            Tokens::SINT_TOKEN(val) => val,
            Tokens::UINT_TOKEN(val) => val,
            Tokens::FLOAT_TOKEN(val) => val,
            Tokens::STRING_TOKEN(val) => val,
            Tokens::FLAG_TOKEN(val) => val,
            Tokens::EXTEND_TOKEN(val) => val,
        }
    }
}

/// The type of value a token stands for, after widening by an extend marker.
#[derive(Debug, PartialEq, Eq, Structural, Clone, Copy)]
#[allow(non_camel_case_types)]
pub enum TType {
    STRUCT_BEGIN,
    STRUCT_END,
    FLAG,
    SINT32,
    UINT32,
    FLOAT32,
    STRING,
    SINT64,
    UINT64,
    FLOAT64,
    EXTEND_TYPE,
}

impl TType {
    /// True of the 64-bit types and the extended string.
    pub open spec fn spec_is_extended(&self) -> bool {
        match self {
            TType::SINT64 | TType::UINT64 | TType::FLOAT64 | TType::EXTEND_TYPE => true,
            _ => false,
        }
    }

    pub fn is_extended(&self) -> (r: bool)
        ensures
            r == self.spec_is_extended(),
    {
        match self {
            TType::STRUCT_BEGIN
            | TType::STRUCT_END
            | TType::FLAG
            | TType::SINT32
            | TType::UINT32
            | TType::FLOAT32
            | TType::STRING => false,
            TType::SINT64 | TType::UINT64 | TType::FLOAT64 | TType::EXTEND_TYPE => true,
        }
    }
}

/// The type of a token read in plain mode; an extend marker has none: it is
/// not a value but widens the token after it.
pub open spec fn plain_type(token: Tokens) -> Option<TType> {
    match token {
        Tokens::BEGIN_TOKEN(_) => Some(TType::STRUCT_BEGIN),
        Tokens::END_TOKEN(_) => Some(TType::STRUCT_END),
        Tokens::SINT_TOKEN(_) => Some(TType::SINT32),
        Tokens::UINT_TOKEN(_) => Some(TType::UINT32),
        Tokens::FLOAT_TOKEN(_) => Some(TType::FLOAT32),
        Tokens::STRING_TOKEN(_) => Some(TType::STRING),
        Tokens::FLAG_TOKEN(_) => Some(TType::FLAG),
        Tokens::EXTEND_TOKEN(_) => None,
    }
}

/// The type of a token read in wide mode, after an extend marker: only
/// integer, float and string tokens have a wide form.
pub open spec fn wide_type(token: Tokens) -> Option<TType> {
    match token {
        Tokens::SINT_TOKEN(_) => Some(TType::SINT64),
        Tokens::UINT_TOKEN(_) => Some(TType::UINT64),
        Tokens::FLOAT_TOKEN(_) => Some(TType::FLOAT64),
        Tokens::STRING_TOKEN(_) => Some(TType::EXTEND_TYPE),
        _ => None,
    }
}

/// The type of a token in plain mode, or in wide mode (`extended`); `None`
/// where the token has no type in that mode.
#[allow(non_snake_case)]
pub fn token2Type(token: &Tokens, extended: bool) -> (r: Option<TType>)
    ensures
        extended ==> r == wide_type(*token),
        !extended ==> r == plain_type(*token),
{
    if extended {
        match token {
            Tokens::SINT_TOKEN(_) => Some(TType::SINT64),
            Tokens::UINT_TOKEN(_) => Some(TType::UINT64),
            Tokens::FLOAT_TOKEN(_) => Some(TType::FLOAT64),
            Tokens::STRING_TOKEN(_) => Some(TType::EXTEND_TYPE),
            _ => None,
        }
    } else {
        match token {
            Tokens::BEGIN_TOKEN(_) => Some(TType::STRUCT_BEGIN),
            Tokens::END_TOKEN(_) => Some(TType::STRUCT_END),
            Tokens::SINT_TOKEN(_) => Some(TType::SINT32),
            Tokens::UINT_TOKEN(_) => Some(TType::UINT32),
            Tokens::FLOAT_TOKEN(_) => Some(TType::FLOAT32),
            Tokens::STRING_TOKEN(_) => Some(TType::STRING),
            Tokens::FLAG_TOKEN(_) => Some(TType::FLAG),
            Tokens::EXTEND_TOKEN(_) => None,
        }
    }
}

/// The tag of a packed token word: its low 3 bits.
pub open spec fn word_tag(word: u16) -> int {
    word as int % 8
}

/// The string table index of a packed token word: its upper 13 bits.
pub open spec fn word_name_index(word: u16) -> int {
    word as int / 8
}

/// Splits a packed token word into its tag and its name index.
pub fn decode_word(word: u16) -> (r: (u16, u16))
    ensures
        r.0 as int == word_tag(word),
        r.1 as int == word_name_index(word),
{
    let tag = word & 7;
    let index = word >> 3;
    assert(word & 7 == word % 8) by (bit_vector);
    assert(word >> 3 == word / 8) by (bit_vector);
    (tag, index)
}

/// The token that a packed word stands for, with its name looked up in
/// `strings`; `None` where the name index is past the end of the table.
pub fn parse_token(stored_token: u16, strings: &Vec<String>) -> (r: Option<Tokens>)
    ensures
        r is Some <==> word_name_index(stored_token) < strings@.len(),
        r matches Some(t) ==> t.tag() == word_tag(stored_token) && t.name()
            == strings@[word_name_index(stored_token)]@,
{
    let (token_type, token_value) = decode_word(stored_token);
    if token_value as usize >= strings.len() {
        return None;
    }
    let token_name = strings[token_value as usize].clone();
    let token = if token_type == 0 {
        Tokens::BEGIN_TOKEN(token_name)
    } else if token_type == 1 {
        Tokens::END_TOKEN(token_name)
    } else if token_type == 2 {
        Tokens::SINT_TOKEN(token_name)
    } else if token_type == 3 {
        Tokens::UINT_TOKEN(token_name)
    } else if token_type == 4 {
        Tokens::FLOAT_TOKEN(token_name)
    } else if token_type == 5 {
        Tokens::STRING_TOKEN(token_name)
    } else if token_type == 6 {
        Tokens::FLAG_TOKEN(token_name)
    } else {
        Tokens::EXTEND_TOKEN(token_name)
    };
    Some(token)
}

} // verus!
