//! What decoding does to a cursor position, stated over a record's sections.
use vstd::prelude::*;

use crate::format::error::{Error, ErrorView};
use crate::pd::{plain_type, wide_type, PersistentDataRecord, TType, Tokens};

verus! {

/// The outcome of decoding at a cursor position: the value and the cursor
/// (token offset, argument offset) after it, or the error.
pub enum Step<A> {
    Done(A, int, int),
    Failed(ErrorView),
}

/// An executable result and the cursor after it agree with a step.
pub open spec fn agrees<T: DeepView>(
    r: Result<T, Error>,
    s: Step<T::V>,
    tok: int,
    arg: int,
) -> bool {
    match s {
        Step::Done(v, t, a) => r matches Ok(x) && x.deep_view() == v && tok == t && arg == a,
        Step::Failed(e) => r matches Err(x) && x@ == e,
    }
}

/// The error for a token of another type than `expected`.
pub open spec fn type_error(expected: TType, name: Seq<char>) -> ErrorView {
    match expected {
        TType::STRUCT_BEGIN => ErrorView::ExpectedBeginToken,
        TType::STRUCT_END => ErrorView::ExpectedEndToken,
        TType::SINT32 | TType::SINT64 => ErrorView::ExpectedSintToken,
        TType::UINT32 | TType::UINT64 => ErrorView::ExpectedUintToken,
        TType::STRING | TType::EXTEND_TYPE => ErrorView::ExpectedString,
        _ => ErrorView::ExpectedTokenWithName(name),
    }
}

/// The error for a token of type `expected` with another name than `name`:
/// brackets report the bracket, values report the name.
pub open spec fn name_error(expected: TType, name: Seq<char>) -> ErrorView {
    match expected {
        TType::STRUCT_BEGIN => ErrorView::ExpectedBeginToken,
        TType::STRUCT_END => ErrorView::ExpectedEndToken,
        _ => ErrorView::ExpectedTokenWithName(name),
    }
}

/// Checking that `token`, of type `ty`, is a `name` token of type `expected`.
pub open spec fn check_step(
    token: Tokens,
    ty: TType,
    name: Seq<char>,
    expected: TType,
) -> Result<(), ErrorView> {
    if ty != expected {
        Err(type_error(expected, name))
    } else if token.name() != name {
        Err(name_error(expected, name))
    } else {
        Ok(())
    }
}

/// Taking the `name` token of type `expected` at `tok`: one token read in
/// plain mode, or an extend marker and the token after it read in wide mode;
/// a token without a wide form after a marker is refused. No argument is
/// taken.
pub open spec fn token_step(
    rec: PersistentDataRecord,
    tok: int,
    arg: int,
    name: Seq<char>,
    expected: TType,
) -> Step<()> {
    let tokens = rec.tokens@;
    if !(0 <= tok < tokens.len()) {
        Step::Failed(ErrorView::NoMoreTokens)
    } else {
        match plain_type(tokens[tok]) {
            Some(ty) => match check_step(tokens[tok], ty, name, expected) {
                Ok(_) => Step::Done((), tok + 1, arg),
                Err(e) => Step::Failed(e),
            },
            None => if tok + 1 >= tokens.len() {
                Step::Failed(ErrorView::NoMoreTokens)
            } else {
                match wide_type(tokens[tok + 1]) {
                    Some(ty) => match check_step(tokens[tok + 1], ty, name, expected) {
                        Ok(_) => Step::Done((), tok + 2, arg),
                        Err(e) => Step::Failed(e),
                    },
                    None => Step::Failed(ErrorView::InvalidFormat),
                }
            },
        }
    }
}

/// Taking the argument at `arg`.
pub open spec fn arg_step(rec: PersistentDataRecord, tok: int, arg: int) -> Step<u32> {
    if 0 <= arg < rec.args@.len() {
        Step::Done(rec.args@[arg], tok, arg + 1)
    } else {
        Step::Failed(ErrorView::NoMoreArgs)
    }
}

/// Taking a `name` value of type `expected` at the cursor: its token, then
/// exactly one argument, whatever the width of the type; the raw argument.
pub open spec fn scalar_step(
    rec: PersistentDataRecord,
    tok: int,
    arg: int,
    name: Seq<char>,
    expected: TType,
) -> Step<u32> {
    match token_step(rec, tok, arg, name, expected) {
        Step::Done(_, t, a) => arg_step(rec, t, a),
        Step::Failed(e) => Step::Failed(e),
    }
}

/// The entry `index` of the string table.
pub open spec fn string_entry(rec: PersistentDataRecord, index: u32, tok: int, arg: int) -> Step<
    Seq<char>,
> {
    if index < rec.strings@.len() {
        Step::Done(rec.strings@[index as int]@, tok, arg)
    } else {
        Step::Failed(ErrorView::InvalidFormat)
    }
}

/// Taking a `name` string value: its argument indexes the string table.
pub open spec fn string_step(rec: PersistentDataRecord, tok: int, arg: int, name: Seq<char>) -> Step<
    Seq<char>,
> {
    match scalar_step(rec, tok, arg, name, TType::STRING) {
        Step::Done(i, t, a) => string_entry(rec, i, t, a),
        Step::Failed(e) => Step::Failed(e),
    }
}

/// A step whose value is converted by `f`.
pub open spec fn map_step<A, B>(s: Step<A>, f: spec_fn(A) -> B) -> Step<B> {
    match s {
        Step::Done(v, t, a) => Step::Done(f(v), t, a),
        Step::Failed(e) => Step::Failed(e),
    }
}

/// The token at `tok` is there and carries `name`.
pub open spec fn next_named(rec: PersistentDataRecord, tok: int, name: Seq<char>) -> bool {
    0 <= tok < rec.tokens@.len() && rec.tokens@[tok].name() == name
}

/// An optional value: taken where the token at the cursor carries `name`,
/// absent with the cursor unmoved otherwise.
pub open spec fn optional_step<A>(
    rec: PersistentDataRecord,
    tok: int,
    arg: int,
    name: Seq<char>,
    present: Step<A>,
) -> Step<Option<A>> {
    if next_named(rec, tok, name) {
        map_step(present, |v: A| Some(v))
    } else {
        Step::Done(None, tok, arg)
    }
}

/// The values in front of the rest of a repetition.
pub open spec fn prepend<A>(items: Seq<A>, rest: Step<Seq<A>>) -> Step<Seq<A>> {
    match rest {
        Step::Done(vs, t, a) => Step::Done(items + vs, t, a),
        Step::Failed(e) => Step::Failed(e),
    }
}

/// The token at `tok` is an unsigned integer token that carries `name`.
pub open spec fn next_uint(rec: PersistentDataRecord, tok: int, name: Seq<char>) -> bool {
    next_named(rec, tok, name) && rec.tokens@[tok] is UINT_TOKEN
}

/// The token at `tok` is a string token that carries `name`.
pub open spec fn next_string(rec: PersistentDataRecord, tok: int, name: Seq<char>) -> bool {
    next_named(rec, tok, name) && rec.tokens@[tok] is STRING_TOKEN
}

/// The token at `tok` opens a struct called `name`.
pub open spec fn next_begin(rec: PersistentDataRecord, tok: int, name: Seq<char>) -> bool {
    next_named(rec, tok, name) && rec.tokens@[tok] is BEGIN_TOKEN
}

/// A run of unsigned integer tokens called `name`: taken while the token at
/// the cursor is one; the token that ends the run is left in place.
pub open spec fn repeated_uint_step(
    rec: PersistentDataRecord,
    tok: int,
    arg: int,
    name: Seq<char>,
) -> Step<Seq<u32>>
    decreases rec.tokens@.len() - tok,
{
    if next_uint(rec, tok, name) {
        match arg_step(rec, tok + 1, arg) {
            Step::Done(v, t, a) => prepend(seq![v], repeated_uint_step(rec, t, a, name)),
            Step::Failed(e) => Step::Failed(e),
        }
    } else {
        Step::Done(seq![], tok, arg)
    }
}

/// A run of string tokens called `name`: taken while the token at the cursor
/// is one; the token that ends the run is left in place.
pub open spec fn repeated_string_step(
    rec: PersistentDataRecord,
    tok: int,
    arg: int,
    name: Seq<char>,
) -> Step<Seq<Seq<char>>>
    decreases rec.tokens@.len() - tok,
{
    if next_string(rec, tok, name) {
        match arg_step(rec, tok + 1, arg) {
            Step::Done(i, t, a) => match string_entry(rec, i, t, a) {
                Step::Done(s, t2, a2) => prepend(seq![s], repeated_string_step(rec, t2, a2, name)),
                Step::Failed(e) => Step::Failed(e),
            },
            Step::Failed(e) => Step::Failed(e),
        }
    } else {
        Step::Done(seq![], tok, arg)
    }
}

/// What an enum value at the cursor is: a unit variant, named by a string
/// value, or a variant with a payload, named by the bracket that holds it.
pub enum EnumTagView {
    Unit(Seq<char>),
    Payload(Seq<char>),
}

/// Taking the start of an enum value: a string token and its argument, or
/// the opening bracket of the payload.
pub open spec fn enum_step(rec: PersistentDataRecord, tok: int, arg: int) -> Step<EnumTagView> {
    if !(0 <= tok < rec.tokens@.len()) {
        Step::Failed(ErrorView::NoMoreTokens)
    } else {
        match rec.tokens@[tok] {
            Tokens::STRING_TOKEN(_) => map_step(
                any_string_step(rec, tok, arg),
                |s: Seq<char>| EnumTagView::Unit(s),
            ),
            Tokens::BEGIN_TOKEN(n) => Step::Done(EnumTagView::Payload(n@), tok + 1, arg),
            _ => Step::Failed(ErrorView::ExpectedEnum),
        }
    }
}

/// Taking a string token at the cursor, whatever its name; its argument
/// indexes the string table.
pub open spec fn any_string_step(rec: PersistentDataRecord, tok: int, arg: int) -> Step<Seq<char>> {
    if !(0 <= tok < rec.tokens@.len()) {
        Step::Failed(ErrorView::NoMoreTokens)
    } else if rec.tokens@[tok] is STRING_TOKEN {
        match arg_step(rec, tok + 1, arg) {
            Step::Done(i, t, a) => string_entry(rec, i, t, a),
            Step::Failed(e) => Step::Failed(e),
        }
    } else {
        Step::Failed(ErrorView::ExpectedString)
    }
}

/// Taking a struct called `name`: its opening bracket, the fields that
/// `body` takes, and its closing bracket.
pub open spec fn struct_step<A>(
    rec: PersistentDataRecord,
    tok: int,
    arg: int,
    name: Seq<char>,
    body: spec_fn(int, int) -> Step<A>,
) -> Step<A> {
    match token_step(rec, tok, arg, name, TType::STRUCT_BEGIN) {
        Step::Done(_, t, a) => match body(t, a) {
            Step::Done(v, t2, a2) => match token_step(rec, t2, a2, name, TType::STRUCT_END) {
                Step::Done(_, t3, a3) => Step::Done(v, t3, a3),
                Step::Failed(e) => Step::Failed(e),
            },
            Step::Failed(e) => Step::Failed(e),
        },
        Step::Failed(e) => Step::Failed(e),
    }
}

/// A run of structs called `name`: taken while the token at the cursor opens
/// one; the token that ends the run is left in place. A struct always ends
/// past the token it starts at (its brackets are two tokens and a body never
/// moves the cursor back); one that would not is refused.
pub open spec fn repeated_struct_step<A>(
    rec: PersistentDataRecord,
    tok: int,
    arg: int,
    name: Seq<char>,
    body: spec_fn(int, int) -> Step<A>,
) -> Step<Seq<A>>
    decreases rec.tokens@.len() - tok,
{
    if next_begin(rec, tok, name) {
        match struct_step(rec, tok, arg, name, body) {
            Step::Done(v, t, a) => if t > tok {
                prepend(seq![v], repeated_struct_step(rec, t, a, name, body))
            } else {
                Step::Failed(ErrorView::InvalidFormat)
            },
            Step::Failed(e) => Step::Failed(e),
        }
    } else {
        Step::Done(seq![], tok, arg)
    }
}

/// Taking a whole enum value. A unit variant is looked up by its name with
/// `unit`. A variant with a payload has it read by `payload`, from just past
/// the opening bracket; then the bracket named after the variant must close.
pub open spec fn enum_value_step<V>(
    rec: PersistentDataRecord,
    tok: int,
    arg: int,
    unit: spec_fn(Seq<char>) -> Result<V, ErrorView>,
    payload: spec_fn(int, int, Seq<char>) -> Step<V>,
) -> Step<V> {
    match enum_step(rec, tok, arg) {
        Step::Done(EnumTagView::Unit(s), t, a) => match unit(s) {
            Ok(v) => Step::Done(v, t, a),
            Err(e) => Step::Failed(e),
        },
        Step::Done(EnumTagView::Payload(n), t, a) => match payload(t, a, n) {
            Step::Done(v, t2, a2) => match token_step(rec, t2, a2, n, TType::STRUCT_END) {
                Step::Done(_, t3, a3) => Step::Done(v, t3, a3),
                Step::Failed(e) => Step::Failed(e),
            },
            Step::Failed(e) => Step::Failed(e),
        },
        Step::Failed(e) => Step::Failed(e),
    }
}

} // verus!
