//! Properties of decoding that hold of every record.
use vstd::prelude::*;

use crate::format::error::ErrorView;
use crate::format::step::{
    next_named, next_uint, optional_step, repeated_uint_step, scalar_step, token_step, Step,
};
use crate::pd::{PersistentDataRecord, TType};

verus! {

/// Once the tokens are used up, every value asked for fails with
/// `NoMoreTokens`, whatever its name and type.
pub proof fn exhausted_tokens_fail(
    rec: PersistentDataRecord,
    tok: int,
    arg: int,
    name: Seq<char>,
    expected: TType,
)
    requires
        tok >= rec.tokens@.len(),
    ensures
        scalar_step(rec, tok, arg, name, expected) == Step::<u32>::Failed(ErrorView::NoMoreTokens),
        token_step(rec, tok, arg, name, expected) == Step::<()>::Failed(ErrorView::NoMoreTokens),
{
}

/// An optional value whose name is not on the token at the cursor is absent,
/// and the cursor does not move.
pub proof fn absent_optional_keeps_cursor<A>(
    rec: PersistentDataRecord,
    tok: int,
    arg: int,
    name: Seq<char>,
    present: Step<A>,
)
    requires
        !next_named(rec, tok, name),
    ensures
        optional_step(rec, tok, arg, name, present) == Step::<Option<A>>::Done(None, tok, arg),
{
}

/// An extend marker followed by an unsigned token called `name` is one
/// unsigned 64-bit value: it takes both tokens and exactly one argument.
pub proof fn extended_uint_is_one_value(
    rec: PersistentDataRecord,
    tok: int,
    arg: int,
    name: Seq<char>,
)
    requires
        0 <= tok,
        tok + 1 < rec.tokens@.len(),
        rec.tokens@[tok] is EXTEND_TOKEN,
        rec.tokens@[tok + 1] is UINT_TOKEN,
        rec.tokens@[tok + 1].name() == name,
        0 <= arg < rec.args@.len(),
    ensures
        scalar_step(rec, tok, arg, name, TType::UINT64) == Step::Done(
            rec.args@[arg],
            tok + 2,
            arg + 1,
        ),
{
}

/// A run of unsigned values takes one token and one argument per value, in
/// stream order, and stops at a token that does not continue it, which it
/// leaves in place.
pub proof fn repeated_uint_stops_before_other_token(
    rec: PersistentDataRecord,
    tok: int,
    arg: int,
    name: Seq<char>,
)
    requires
        0 <= tok,
        0 <= arg,
    ensures
        repeated_uint_step(rec, tok, arg, name) matches Step::Done(vs, t, a) ==> {
            &&& t == tok + vs.len()
            &&& a == arg + vs.len()
            &&& !next_uint(rec, t, name)
            &&& forall|i: int| 0 <= i < vs.len() ==> vs[i] == rec.args@[arg + i]
            &&& forall|i: int| tok <= i < t ==> next_uint(rec, i, name)
        },
    decreases rec.tokens@.len() - tok,
{
    if next_uint(rec, tok, name) && 0 <= arg < rec.args@.len() {
        repeated_uint_stops_before_other_token(rec, tok + 1, arg + 1, name);
        let rest = repeated_uint_step(rec, tok + 1, arg + 1, name);
        if let Step::Done(ws, t, a) = rest {
            let vs = seq![rec.args@[arg]] + ws;
            assert forall|i: int| 0 <= i < vs.len() implies vs[i] == rec.args@[arg + i] by {
                if i > 0 {
                    assert(vs[i] == ws[i - 1]);
                }
            }
            assert forall|i: int| tok <= i < t implies next_uint(rec, i, name) by {
                if i > tok {
                    assert(tok + 1 <= i < t);
                }
            }
        }
    }
}

/// Taking a value never moves the cursor past the end of the tokens or of
/// the arguments, nor back.
pub proof fn cursor_stays_within_sections(
    rec: PersistentDataRecord,
    tok: int,
    arg: int,
    name: Seq<char>,
    expected: TType,
)
    requires
        0 <= tok,
        0 <= arg <= rec.args@.len(),
    ensures
        token_step(rec, tok, arg, name, expected) matches Step::Done(_, t, a) ==> tok < t
            <= rec.tokens@.len() && a == arg,
        scalar_step(rec, tok, arg, name, expected) matches Step::Done(_, t, a) ==> tok < t
            <= rec.tokens@.len() && a == arg + 1 && a <= rec.args@.len(),
{
}

} // verus!
