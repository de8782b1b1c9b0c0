//! The decoding session: a cursor over a loaded record that takes values in
//! the order the caller asks for them.
use vstd::prelude::*;

use crate::format::error::{Error, ErrorView};
use crate::format::step::{
    agrees, any_string_step, arg_step, check_step, enum_step, enum_value_step, map_step, name_error, next_begin,
    next_named, next_string, next_uint, optional_step, prepend, repeated_string_step,
    repeated_struct_step, repeated_uint_step, scalar_step, string_entry, string_step, struct_step,
    token_step, type_error, EnumTagView, Step,
};
use crate::pd::{token2Type, PersistentDataRecord, TType, Tokens};

verus! {

/// Whether the name `n` is `name`.
fn same_name(n: &String, name: &str) -> (r: bool)
    ensures
        r == (n@ == name@),
{
    let wanted = name.to_owned();
    n.eq(&wanted)
}

/// The start of an enum value: a unit variant named by a string value, or a
/// variant whose payload follows inside a bracket named after it.
#[derive(Debug, PartialEq, Eq)]
pub enum EnumTag {
    Unit(String),
    Payload(String),
}

impl DeepView for EnumTag {
    type V = EnumTagView;

    open spec fn deep_view(&self) -> EnumTagView {
        match self {
            EnumTag::Unit(s) => EnumTagView::Unit(s@),
            EnumTag::Payload(s) => EnumTagView::Payload(s@),
        }
    }
}

/// A struct that the decoder can read: the fields between its brackets.
pub trait Readable: Sized + DeepView {
    /// What the fields at cursor (`tok`, `arg`) of `rec` decode to.
    spec fn body_step(rec: PersistentDataRecord, tok: int, arg: int) -> Step<Self::V>;

    /// Reads the fields, in the order the struct declares them.
    fn read(de: &mut Deserializer) -> (r: Result<Self, Error>)
        ensures
            old(de).advanced_to(final(de)),
            agrees(
                r,
                Self::body_step(old(de).record(), old(de).tok(), old(de).arg()),
                final(de).tok(),
                final(de).arg(),
            );
}

/// An enum that the decoder can read: a unit variant is a string value that
/// names it; any other variant is a bracket named after it, around its payload.
pub trait ReadableEnum: Sized + DeepView {
    /// The unit variant called `variant`, or the error for a name that is none.
    spec fn unit_value(variant: Seq<char>) -> Result<Self::V, ErrorView>;

    /// What the payload of the variant called `variant` at cursor (`tok`,
    /// `arg`) of `rec` decodes to.
    spec fn payload_step(rec: PersistentDataRecord, tok: int, arg: int, variant: Seq<char>) -> Step<
        Self::V,
    >;

    /// The unit variant called `variant`.
    fn unit(variant: &str) -> (r: Result<Self, Error>)
        ensures
            match Self::unit_value(variant@) {
                Ok(v) => r matches Ok(x) && x.deep_view() == v,
                Err(e) => r matches Err(x) && x@ == e,
            };

    /// Reads the payload of the variant called `variant`, between its brackets.
    fn read_payload(de: &mut Deserializer, variant: &str) -> (r: Result<Self, Error>)
        ensures
            old(de).advanced_to(final(de)),
            agrees(
                r,
                Self::payload_step(old(de).record(), old(de).tok(), old(de).arg(), variant@),
                final(de).tok(),
                final(de).arg(),
            );
}

/// An enum value whose variants are either unit variants or carry the
/// fields of a `T`.
#[derive(Debug, PartialEq, Eq)]
pub enum Variant<T> {
    Unit(String),
    Fields(String, T),
}

/// The value of a [`Variant`].
pub enum VariantView<V> {
    Unit(Seq<char>),
    Fields(Seq<char>, V),
}

impl<T: DeepView> DeepView for Variant<T> {
    type V = VariantView<T::V>;

    open spec fn deep_view(&self) -> VariantView<T::V> {
        match self {
            Variant::Unit(n) => VariantView::Unit(n@),
            Variant::Fields(n, v) => VariantView::Fields(n@, v.deep_view()),
        }
    }
}

impl<T: Readable> ReadableEnum for Variant<T> {
    open spec fn unit_value(variant: Seq<char>) -> Result<VariantView<T::V>, ErrorView> {
        Ok(VariantView::Unit(variant))
    }

    open spec fn payload_step(rec: PersistentDataRecord, tok: int, arg: int, variant: Seq<char>) -> Step<
        VariantView<T::V>,
    > {
        map_step(T::body_step(rec, tok, arg), |v: T::V| VariantView::Fields(variant, v))
    }

    fn unit(variant: &str) -> (r: Result<Variant<T>, Error>) {
        Ok(Variant::Unit(variant.to_owned()))
    }

    fn read_payload(de: &mut Deserializer, variant: &str) -> (r: Result<Variant<T>, Error>) {
        match T::read(de) {
            Ok(v) => Ok(Variant::Fields(variant.to_owned(), v)),
            Err(e) => Err(e),
        }
    }
}

/// A decoding session over a record: the record is shared and never
/// changed; the cursor (token offset, argument offset) only moves forward.
pub struct Deserializer<'input> {
    input: &'input PersistentDataRecord,
    token_offset: usize,
    arg_offset: usize,
}

/// The error for a token of another type than `expected`.
fn type_mismatch(expected: TType, name: &str) -> (r: Error)
    ensures
        r@ == type_error(expected, name@),
{
    match expected {
        TType::STRUCT_BEGIN => Error::ExpectedBeginToken,
        TType::STRUCT_END => Error::ExpectedEndToken,
        TType::SINT32 | TType::SINT64 => Error::ExpectedSintToken,
        TType::UINT32 | TType::UINT64 => Error::ExpectedUintToken,
        TType::STRING | TType::EXTEND_TYPE => Error::ExpectedString,
        _ => Error::ExpectedTokenWithName(name.to_owned()),
    }
}

/// The error for a token of type `expected` with another name.
fn name_mismatch(expected: TType, name: &str) -> (r: Error)
    ensures
        r@ == name_error(expected, name@),
{
    match expected {
        TType::STRUCT_BEGIN => Error::ExpectedBeginToken,
        TType::STRUCT_END => Error::ExpectedEndToken,
        _ => Error::ExpectedTokenWithName(name.to_owned()),
    }
}

/// Checks that `token`, of type `ty`, is a `name` token of type `expected`.
fn check_token(token: &Tokens, ty: TType, name: &str, expected: TType) -> (r: Result<(), Error>)
    ensures
        match check_step(*token, ty, name@, expected) {
            Ok(_) => r is Ok,
            Err(e) => r matches Err(x) && x@ == e,
        },
{
    if ty != expected {
        Err(type_mismatch(expected, name))
    } else if !same_name(token.value(), name) {
        Err(name_mismatch(expected, name))
    } else {
        Ok(())
    }
}

impl<'input> Deserializer<'input> {
    /// The record the session reads.
    pub closed spec fn record(&self) -> PersistentDataRecord {
        *self.input
    }

    /// The offset of the next token.
    pub closed spec fn tok(&self) -> int {
        self.token_offset as int
    }

    /// The offset of the next argument.
    pub closed spec fn arg(&self) -> int {
        self.arg_offset as int
    }

    /// Offsets are never negative.
    pub proof fn offsets_are_natural(&self)
        ensures
            0 <= self.tok(),
            0 <= self.arg(),
    {
    }

    /// Both offsets lie within their sections (at most at their ends).
    pub open spec fn within(&self) -> bool {
        self.tok() <= self.record().tokens@.len() && self.arg() <= self.record().args@.len()
    }

    /// `after` is this session after taking values, whatever their outcome:
    /// the same record, offsets that are natural numbers and never move back,
    /// and offsets within their sections stay there.
    pub open spec fn advanced_to(&self, after: &Self) -> bool {
        &&& after.record() == self.record()
        &&& 0 <= self.tok()
        &&& 0 <= self.arg()
        &&& self.tok() <= after.tok()
        &&& self.arg() <= after.arg()
        &&& self.within() ==> after.within()
    }

    /// A fresh session at the start of `input`.
    pub fn from_pdr(input: &'input PersistentDataRecord) -> (r: Self)
        ensures
            r.record() == *input,
            r.tok() == 0,
            r.arg() == 0,
            r.within(),
    {
        Deserializer { input, token_offset: 0, arg_offset: 0 }
    }

    /// The cursor: the offsets of the next token and of the next argument.
    pub fn position(&self) -> (r: (usize, usize))
        ensures
            r.0 == self.tok(),
            r.1 == self.arg(),
    {
        (self.token_offset, self.arg_offset)
    }

    /// The token at the cursor, which stays where it is.
    pub fn peek_token(&self) -> (r: Result<&'input Tokens, Error>)
        ensures
            self.tok() < self.record().tokens@.len() ==> (r matches Ok(t) && *t
                == self.record().tokens@[self.tok()]),
            self.tok() >= self.record().tokens@.len() ==> (r matches Err(e) && e@
                == ErrorView::NoMoreTokens),
    {
        if self.token_offset < self.input.tokens.len() {
            Ok(&self.input.tokens[self.token_offset])
        } else {
            Err(Error::NoMoreTokens)
        }
    }

    /// Whether the token at the cursor carries `name`; fails where no token is left.
    pub fn has_token(&self, name: &str) -> (r: Result<bool, Error>)
        ensures
            self.tok() < self.record().tokens@.len() ==> r == Ok::<bool, Error>(
                next_named(self.record(), self.tok(), name@),
            ),
            self.tok() >= self.record().tokens@.len() ==> (r matches Err(e) && e@
                == ErrorView::NoMoreTokens),
    {
        match self.peek_token() {
            Ok(token) => Ok(same_name(token.value(), name)),
            Err(e) => Err(e),
        }
    }

    /// Whether the token at the cursor is there and carries `name`: the test
    /// made before each optional or repeated value.
    pub fn has_next(&self, name: &str) -> (r: bool)
        ensures
            r == next_named(self.record(), self.tok(), name@),
    {
        match self.peek_token() {
            Ok(token) => same_name(token.value(), name),
            Err(_) => false,
        }
    }

    /// Whether the token at the cursor opens a struct called `name`.
    pub fn has_begin(&self, name: &str) -> (r: bool)
        ensures
            r == next_begin(self.record(), self.tok(), name@),
    {
        match self.peek_token() {
            Ok(token) => match token {
                Tokens::BEGIN_TOKEN(n) => same_name(n, name),
                _ => false,
            },
            Err(_) => false,
        }
    }

    /// Takes the token at the cursor.
    pub fn pop_token(&mut self) -> (r: Result<&'input Tokens, Error>)
        ensures
            old(self).advanced_to(final(self)),
            final(self).arg() == old(self).arg(),
            old(self).tok() < old(self).record().tokens@.len() ==> (r matches Ok(t) && *t
                == old(self).record().tokens@[old(self).tok()] && final(self).tok() == old(
                self,
            ).tok() + 1),
            old(self).tok() >= old(self).record().tokens@.len() ==> (r matches Err(e) && e@
                == ErrorView::NoMoreTokens && final(self).tok() == old(self).tok()),
    {
        if self.token_offset >= self.input.tokens.len() {
            return Err(Error::NoMoreTokens);
        }
        let value = &self.input.tokens[self.token_offset];
        self.token_offset = self.token_offset + 1;
        Ok(value)
    }

    /// Takes the argument at the cursor.
    pub fn pop_arg(&mut self) -> (r: Result<u32, Error>)
        ensures
            old(self).advanced_to(final(self)),
            agrees(r, arg_step(old(self).record(), old(self).tok(), old(self).arg()), final(self).tok(), final(self).arg()),
            r is Err ==> final(self).tok() == old(self).tok() && final(self).arg() == old(self).arg(),
    {
        if self.arg_offset >= self.input.args.len() {
            return Err(Error::NoMoreArgs);
        }
        let arg = self.input.args[self.arg_offset];
        self.arg_offset = self.arg_offset + 1;
        Ok(arg)
    }
    /// Takes the `name` token of type `expected`: one token, or an extend
    /// marker and the token after it read in wide mode. Takes no argument.
    pub fn expect_token(&mut self, name: &str, expected: TType) -> (r: Result<(), Error>)
        ensures
            old(self).advanced_to(final(self)),
            final(self).arg() == old(self).arg(),
            final(self).tok() <= old(self).tok() + 2,
            agrees(
                r,
                token_step(old(self).record(), old(self).tok(), old(self).arg(), name@, expected),
                final(self).tok(),
                final(self).arg(),
            ),
    {
        let token = match self.pop_token() {
            Ok(t) => t,
            Err(e) => return Err(e),
        };
        match token2Type(token, false) {
            Some(ty) => check_token(token, ty, name, expected),
            None => {
                let token = match self.pop_token() {
                    Ok(t) => t,
                    Err(e) => return Err(e),
                };
                match token2Type(token, true) {
                    Some(ty) => check_token(token, ty, name, expected),
                    None => Err(Error::InvalidFormat),
                }
            },
        }
    }

    /// Takes a `name` value of type `expected`: its token (widened after an
    /// extend marker), then exactly one argument, which is returned raw.
    pub fn expect_scalar(&mut self, name: &str, expected: TType) -> (r: Result<u32, Error>)
        ensures
            old(self).advanced_to(final(self)),
            agrees(
                r,
                scalar_step(old(self).record(), old(self).tok(), old(self).arg(), name@, expected),
                final(self).tok(),
                final(self).arg(),
            ),
    {
        match self.expect_token(name, expected) {
            Ok(_) => self.pop_arg(),
            Err(e) => Err(e),
        }
    }

    /// The entry `index` of the string table.
    fn string_at(&self, index: u32) -> (r: Result<String, Error>)
        ensures
            agrees(
                r,
                string_entry(self.record(), index, self.tok(), self.arg()),
                self.tok(),
                self.arg(),
            ),
    {
        if (index as usize) < self.input.strings.len() {
            Ok(self.input.strings[index as usize].clone())
        } else {
            Err(Error::InvalidFormat)
        }
    }

    /// Takes a `name` unsigned 32-bit value.
    pub fn read_u32(&mut self, name: &str) -> (r: Result<u32, Error>)
        ensures
            old(self).advanced_to(final(self)),
            agrees(
                r,
                scalar_step(old(self).record(), old(self).tok(), old(self).arg(), name@, TType::UINT32),
                final(self).tok(),
                final(self).arg(),
            ),
    {
        self.expect_scalar(name, TType::UINT32)
    }

    /// Takes a `name` unsigned 64-bit value: an extend marker and an unsigned
    /// token, with one argument, zero-extended.
    pub fn read_u64(&mut self, name: &str) -> (r: Result<u64, Error>)
        ensures
            old(self).advanced_to(final(self)),
            agrees(
                r,
                map_step(
                    scalar_step(old(self).record(), old(self).tok(), old(self).arg(), name@, TType::UINT64),
                    |v: u32| v as u64,
                ),
                final(self).tok(),
                final(self).arg(),
            ),
    {
        match self.expect_scalar(name, TType::UINT64) {
            Ok(v) => Ok(v as u64),
            Err(e) => Err(e),
        }
    }

    /// Takes a `name` signed 32-bit value: the argument's bits read as two's complement.
    pub fn read_i32(&mut self, name: &str) -> (r: Result<i32, Error>)
        ensures
            old(self).advanced_to(final(self)),
            agrees(
                r,
                map_step(
                    scalar_step(old(self).record(), old(self).tok(), old(self).arg(), name@, TType::SINT32),
                    |v: u32| v as i32,
                ),
                final(self).tok(),
                final(self).arg(),
            ),
    {
        match self.expect_scalar(name, TType::SINT32) {
            Ok(v) => Ok(v as i32),
            Err(e) => Err(e),
        }
    }

    /// Takes a `name` boolean, stored as a signed integer token: true where
    /// the argument is not 0.
    pub fn read_bool(&mut self, name: &str) -> (r: Result<bool, Error>)
        ensures
            old(self).advanced_to(final(self)),
            agrees(
                r,
                map_step(
                    scalar_step(old(self).record(), old(self).tok(), old(self).arg(), name@, TType::SINT32),
                    |v: u32| v != 0,
                ),
                final(self).tok(),
                final(self).arg(),
            ),
    {
        match self.expect_scalar(name, TType::SINT32) {
            Ok(v) => Ok(v != 0),
            Err(e) => Err(e),
        }
    }

    /// Takes a `name` string: its argument indexes the string table.
    pub fn read_string(&mut self, name: &str) -> (r: Result<String, Error>)
        ensures
            old(self).advanced_to(final(self)),
            agrees(
                r,
                string_step(old(self).record(), old(self).tok(), old(self).arg(), name@),
                final(self).tok(),
                final(self).arg(),
            ),
    {
        match self.expect_scalar(name, TType::STRING) {
            Ok(i) => self.string_at(i),
            Err(e) => Err(e),
        }
    }
    /// Takes a string token whatever its name, and the table entry that its
    /// argument indexes.
    pub fn parse_string(&mut self) -> (r: Result<String, Error>)
        ensures
            old(self).advanced_to(final(self)),
            agrees(
                r,
                any_string_step(old(self).record(), old(self).tok(), old(self).arg()),
                final(self).tok(),
                final(self).arg(),
            ),
    {
        let token = match self.pop_token() {
            Ok(t) => t,
            Err(e) => return Err(e),
        };
        if let Tokens::STRING_TOKEN(_) = token {
            match self.pop_arg() {
                Ok(i) => self.string_at(i),
                Err(e) => Err(e),
            }
        } else {
            Err(Error::ExpectedString)
        }
    }

    /// Takes an unsigned 32-bit value where the token at the cursor carries
    /// `name`; otherwise `None`, with the cursor unmoved.
    pub fn read_optional_u32(&mut self, name: &str) -> (r: Result<Option<u32>, Error>)
        ensures
            old(self).advanced_to(final(self)),
            agrees(
                r,
                optional_step(
                    old(self).record(),
                    old(self).tok(),
                    old(self).arg(),
                    name@,
                    scalar_step(old(self).record(), old(self).tok(), old(self).arg(), name@, TType::UINT32),
                ),
                final(self).tok(),
                final(self).arg(),
            ),
    {
        if self.has_next(name) {
            match self.read_u32(name) {
                Ok(v) => Ok(Some(v)),
                Err(e) => Err(e),
            }
        } else {
            Ok(None)
        }
    }

    /// Takes a boolean where the token at the cursor carries `name`;
    /// otherwise `None`, with the cursor unmoved.
    pub fn read_optional_bool(&mut self, name: &str) -> (r: Result<Option<bool>, Error>)
        ensures
            old(self).advanced_to(final(self)),
            agrees(
                r,
                optional_step(
                    old(self).record(),
                    old(self).tok(),
                    old(self).arg(),
                    name@,
                    map_step(
                        scalar_step(old(self).record(), old(self).tok(), old(self).arg(), name@, TType::SINT32),
                        |v: u32| v != 0,
                    ),
                ),
                final(self).tok(),
                final(self).arg(),
            ),
    {
        if self.has_next(name) {
            match self.read_bool(name) {
                Ok(v) => Ok(Some(v)),
                Err(e) => Err(e),
            }
        } else {
            Ok(None)
        }
    }

    /// Takes a string where the token at the cursor carries `name`;
    /// otherwise `None`, with the cursor unmoved.
    pub fn read_optional_string(&mut self, name: &str) -> (r: Result<Option<String>, Error>)
        ensures
            old(self).advanced_to(final(self)),
            agrees(
                r,
                optional_step(
                    old(self).record(),
                    old(self).tok(),
                    old(self).arg(),
                    name@,
                    string_step(old(self).record(), old(self).tok(), old(self).arg(), name@),
                ),
                final(self).tok(),
                final(self).arg(),
            ),
    {
        if self.has_next(name) {
            match self.read_string(name) {
                Ok(v) => Ok(Some(v)),
                Err(e) => Err(e),
            }
        } else {
            Ok(None)
        }
    }

    /// Whether the token at the cursor is an unsigned integer token called `name`.
    fn next_is_uint(&self, name: &str) -> (r: bool)
        ensures
            r == next_uint(self.record(), self.tok(), name@),
    {
        match self.peek_token() {
            Ok(Tokens::UINT_TOKEN(n)) => same_name(n, name),
            _ => false,
        }
    }

    /// Whether the token at the cursor is a string token called `name`.
    fn next_is_string(&self, name: &str) -> (r: bool)
        ensures
            r == next_string(self.record(), self.tok(), name@),
    {
        match self.peek_token() {
            Ok(Tokens::STRING_TOKEN(n)) => same_name(n, name),
            _ => false,
        }
    }

    /// Takes the run of unsigned integer tokens called `name` at the cursor,
    /// in order; the token that ends the run is left in place.
    pub fn read_repeated_u32(&mut self, name: &str) -> (r: Result<Vec<u32>, Error>)
        ensures
            old(self).advanced_to(final(self)),
            agrees(
                r,
                repeated_uint_step(old(self).record(), old(self).tok(), old(self).arg(), name@),
                final(self).tok(),
                final(self).arg(),
            ),
    {
        let ghost rec = self.record();
        let ghost whole = repeated_uint_step(rec, self.tok(), self.arg(), name@);
        let mut items: Vec<u32> = Vec::new();
        while self.next_is_uint(name)
            invariant
                self.record() == rec,
                rec == old(self).record(),
                old(self).advanced_to(self),
                whole == repeated_uint_step(old(self).record(), old(self).tok(), old(self).arg(), name@),
                whole == prepend(items@, repeated_uint_step(rec, self.tok(), self.arg(), name@)),
            decreases rec.tokens@.len() - self.tok(),
        {
            let ghost rest = repeated_uint_step(rec, self.tok() + 1, self.arg() + 1, name@);
            match self.read_u32(name) {
                Ok(v) => {
                    proof {
                        assert(prepend(items@, prepend(seq![v], rest)) == prepend(items@.push(v), rest)) by {
                            assert(items@ + seq![v] =~= items@.push(v));
                            if rest is Done {
                                assert(items@ + (seq![v] + rest->Done_0) =~= items@.push(v) + rest->Done_0);
                            }
                        }
                    }
                    items.push(v);
                },
                Err(e) => return Err(e),
            }
        }
        assert(items@ + seq![] =~= items@);
        assert(items.deep_view() =~= items@);
        Ok(items)
    }

    /// Takes the run of string tokens called `name` at the cursor, in order;
    /// the token that ends the run is left in place.
    pub fn read_repeated_string(&mut self, name: &str) -> (r: Result<Vec<String>, Error>)
        ensures
            old(self).advanced_to(final(self)),
            agrees(
                r,
                repeated_string_step(old(self).record(), old(self).tok(), old(self).arg(), name@),
                final(self).tok(),
                final(self).arg(),
            ),
    {
        let ghost rec = self.record();
        let ghost whole = repeated_string_step(rec, self.tok(), self.arg(), name@);
        let mut items: Vec<String> = Vec::new();
        while self.next_is_string(name)
            invariant
                self.record() == rec,
                rec == old(self).record(),
                old(self).advanced_to(self),
                whole == repeated_string_step(old(self).record(), old(self).tok(), old(self).arg(), name@),
                whole == prepend(items.deep_view(), repeated_string_step(rec, self.tok(), self.arg(), name@)),
            decreases rec.tokens@.len() - self.tok(),
        {
            let ghost rest = repeated_string_step(rec, self.tok() + 1, self.arg() + 1, name@);
            match self.read_string(name) {
                Ok(v) => {
                    let ghost before = items.deep_view();
                    items.push(v);
                    proof {
                        assert(items.deep_view() =~= before.push(v@));
                        assert(before + seq![v@] =~= before.push(v@));
                        if rest is Done {
                            assert(before + (seq![v@] + rest->Done_0) =~= before.push(v@) + rest->Done_0);
                        }
                    }
                },
                Err(e) => return Err(e),
            }
        }
        assert(items.deep_view() + seq![] =~= items.deep_view());
        Ok(items)
    }

    /// Takes the opening bracket of a struct called `name`.
    pub fn expect_struct_begin(&mut self, name: &str) -> (r: Result<(), Error>)
        ensures
            old(self).advanced_to(final(self)),
            agrees(
                r,
                token_step(old(self).record(), old(self).tok(), old(self).arg(), name@, TType::STRUCT_BEGIN),
                final(self).tok(),
                final(self).arg(),
            ),
    {
        self.expect_token(name, TType::STRUCT_BEGIN)
    }

    /// Takes the closing bracket of a struct called `name`; brackets close in
    /// the order they were opened.
    pub fn expect_struct_end(&mut self, name: &str) -> (r: Result<(), Error>)
        ensures
            old(self).advanced_to(final(self)),
            agrees(
                r,
                token_step(old(self).record(), old(self).tok(), old(self).arg(), name@, TType::STRUCT_END),
                final(self).tok(),
                final(self).arg(),
            ),
    {
        self.expect_token(name, TType::STRUCT_END)
    }

    /// Takes the start of an enum value. A string token is a unit variant,
    /// named by its string value. An opening bracket starts a variant with a
    /// payload, named by the bracket. [`Self::read_enum_value`] goes on to
    /// read the payload and the closing bracket.
    pub fn read_enum(&mut self) -> (r: Result<EnumTag, Error>)
        ensures
            old(self).advanced_to(final(self)),
            agrees(
                r,
                enum_step(old(self).record(), old(self).tok(), old(self).arg()),
                final(self).tok(),
                final(self).arg(),
            ),
    {
        let token = match self.pop_token() {
            Ok(t) => t,
            Err(e) => return Err(e),
        };
        match token {
            Tokens::STRING_TOKEN(_) => match self.pop_arg() {
                Ok(i) => match self.string_at(i) {
                    Ok(s) => Ok(EnumTag::Unit(s)),
                    Err(e) => Err(e),
                },
                Err(e) => Err(e),
            },
            Tokens::BEGIN_TOKEN(n) => Ok(EnumTag::Payload(n.clone())),
            _ => Err(Error::ExpectedEnum),
        }
    }
    /// Takes a struct called `name`: its opening bracket, its fields, and its
    /// closing bracket.
    pub fn read_struct<T: Readable>(&mut self, name: &str) -> (r: Result<T, Error>)
        ensures
            old(self).advanced_to(final(self)),
            r is Ok ==> final(self).tok() > old(self).tok(),
            agrees(
                r,
                struct_step(
                    old(self).record(),
                    old(self).tok(),
                    old(self).arg(),
                    name@,
                    |t: int, a: int| T::body_step(old(self).record(), t, a),
                ),
                final(self).tok(),
                final(self).arg(),
            ),
    {
        match self.expect_struct_begin(name) {
            Ok(_) => {},
            Err(e) => return Err(e),
        }
        let value = match T::read(self) {
            Ok(v) => v,
            Err(e) => return Err(e),
        };
        match self.expect_struct_end(name) {
            Ok(_) => Ok(value),
            Err(e) => Err(e),
        }
    }

    /// Takes the run of structs called `name` at the cursor, in order; the
    /// token that ends the run is left in place.
    pub fn read_repeated_struct<T: Readable>(&mut self, name: &str) -> (r: Result<Vec<T>, Error>)
        ensures
            old(self).advanced_to(final(self)),
            agrees(
                r,
                repeated_struct_step(
                    old(self).record(),
                    old(self).tok(),
                    old(self).arg(),
                    name@,
                    |t: int, a: int| T::body_step(old(self).record(), t, a),
                ),
                final(self).tok(),
                final(self).arg(),
            ),
    {
        let ghost rec = self.record();
        let ghost body = |t: int, a: int| T::body_step(rec, t, a);
        let ghost whole = repeated_struct_step(rec, self.tok(), self.arg(), name@, body);
        let mut items: Vec<T> = Vec::new();
        while self.has_begin(name)
            invariant
                self.record() == rec,
                rec == old(self).record(),
                old(self).advanced_to(self),
                body == (|t: int, a: int| T::body_step(old(self).record(), t, a)),
                whole == repeated_struct_step(old(self).record(), old(self).tok(), old(self).arg(), name@, body),
                whole == prepend(items.deep_view(), repeated_struct_step(rec, self.tok(), self.arg(), name@, body)),
            decreases rec.tokens@.len() - self.tok(),
        {
            let ghost start = self.tok();
            match self.read_struct::<T>(name) {
                Ok(v) => {
                    let ghost rest = repeated_struct_step(rec, self.tok(), self.arg(), name@, body);
                    let ghost before = items.deep_view();
                    assert(self.tok() > start);
                    items.push(v);
                    proof {
                        assert(items.deep_view() =~= before.push(v.deep_view()));
                        assert(before + seq![v.deep_view()] =~= before.push(v.deep_view()));
                        if rest is Done {
                            assert(before + (seq![v.deep_view()] + rest->Done_0) =~= before.push(v.deep_view()) + rest->Done_0);
                        }
                    }
                },
                Err(e) => return Err(e),
            }
        }
        assert(items.deep_view() + seq![] =~= items.deep_view());
        Ok(items)
    }
    /// Takes a whole enum value: a unit variant named by a string value, or
    /// a variant whose payload stands in a bracket named after it, which must
    /// then close (`ExpectedEndToken` otherwise). Any other token fails with
    /// `ExpectedEnum`.
    pub fn read_enum_value<T: ReadableEnum>(&mut self) -> (r: Result<T, Error>)
        ensures
            old(self).advanced_to(final(self)),
            agrees(
                r,
                enum_value_step(
                    old(self).record(),
                    old(self).tok(),
                    old(self).arg(),
                    |s: Seq<char>| T::unit_value(s),
                    |t: int, a: int, n: Seq<char>| T::payload_step(old(self).record(), t, a, n),
                ),
                final(self).tok(),
                final(self).arg(),
            ),
    {
        match self.read_enum() {
            Ok(EnumTag::Unit(s)) => T::unit(s.as_str()),
            Ok(EnumTag::Payload(n)) => {
                let value = match T::read_payload(self, n.as_str()) {
                    Ok(v) => v,
                    Err(e) => return Err(e),
                };
                match self.expect_struct_end(n.as_str()) {
                    Ok(_) => Ok(value),
                    Err(e) => Err(e),
                }
            },
            Err(e) => Err(e),
        }
    }
}

/// Decodes a `T` from the start of `input`: its fields stand at the top
/// level of the token stream, without brackets.
pub fn from_pdr<T: Readable>(input: &PersistentDataRecord) -> (r: Result<T, Error>)
    ensures
        match T::body_step(*input, 0, 0) {
            Step::Done(v, _, _) => r matches Ok(x) && x.deep_view() == v,
            Step::Failed(e) => r matches Err(x) && x@ == e,
        },
{
    let mut deserializer = Deserializer::from_pdr(input);
    T::read(&mut deserializer)
}

} // verus!
