//! Loading a record from the bytes of a record file.
use vstd::prelude::*;
use vstd::utf8::{decode_utf8, valid_utf8};

use crate::error::{IoFailure, ReadingError};
use crate::pd::{parse_token, word_name_index, word_tag, Header, PersistentDataRecord, Tokens};

verus! {

/// Length of the fixed header.
pub const HEADER_SIZE: usize = 24;

/// The little-endian 16-bit value at `off`.
pub open spec fn le_u16(b: Seq<u8>, off: int) -> u16 {
    (b[off] as int + 256 * b[off + 1] as int) as u16
}

/// The little-endian 32-bit value at `off`.
pub open spec fn le_u32(b: Seq<u8>, off: int) -> u32 {
    (b[off] as int + 256 * b[off + 1] as int + 65536 * b[off + 2] as int + 16777216 * b[
        off + 3
    ] as int) as u32
}

/// The header that the first 24 bytes hold, field by field.
pub open spec fn spec_header(b: Seq<u8>) -> Header {
    Header {
        version: le_u32(b, 0),
        total_size: le_u32(b, 4),
        token_count: le_u32(b, 8),
        arg_count: le_u32(b, 12),
        string_count: le_u32(b, 16),
        strings_size: le_u32(b, 20),
    }
}

/// The total size that the counts of a header add up to.
pub open spec fn expected_size(h: Header) -> int {
    24 + 2 * h.token_count + 4 * h.arg_count + h.strings_size
}

/// The error that the header checks find in `b`, in the order they are made.
pub open spec fn header_error(b: Seq<u8>) -> Option<ReadingError> {
    if b.len() < 24 {
        Some(ReadingError::InvalidFileFormat)
    } else {
        let h = spec_header(b);
        if h.version != 0 {
            Some(ReadingError::UnsupportedVersion(h.version))
        } else if h.total_size > b.len() {
            Some(ReadingError::ContentTooSmall(h.total_size, b.len() as u64))
        } else if h.total_size != expected_size(h) {
            Some(ReadingError::ContentWrongSize(h.total_size, expected_size(h) as u64))
        } else {
            None
        }
    }
}

/// Offset of the argument section.
pub open spec fn args_start(h: Header) -> int {
    24 + 2 * h.token_count
}

/// Offset of the string section.
pub open spec fn strings_start(h: Header) -> int {
    24 + 2 * h.token_count + 4 * h.arg_count
}

/// The index of the first NUL byte at or after `pos`, or the length of `b`.
pub open spec fn nul_end(b: Seq<u8>, pos: int) -> int
    decreases b.len() - pos,
{
    if pos >= b.len() {
        b.len() as int
    } else if b[pos] == 0 {
        pos
    } else {
        nul_end(b, pos + 1)
    }
}

/// The bytes of the string that starts at `pos`, without its NUL.
pub open spec fn string_piece(b: Seq<u8>, pos: int) -> Seq<u8> {
    b.subrange(pos, nul_end(b, pos))
}

/// Where the string after the one at `pos` starts: past its NUL, or at the end.
pub open spec fn after_string(b: Seq<u8>, pos: int) -> int {
    if nul_end(b, pos) < b.len() {
        nul_end(b, pos) + 1
    } else {
        b.len() as int
    }
}

/// The bytes of the `n` strings that follow one another from `pos`.
pub open spec fn string_pieces(b: Seq<u8>, pos: int, n: nat) -> Seq<Seq<u8>>
    decreases n,
{
    if n == 0 {
        seq![]
    } else {
        seq![string_piece(b, pos)] + string_pieces(b, after_string(b, pos), (n - 1) as nat)
    }
}

/// The packed token word number `i`.
pub open spec fn token_word(b: Seq<u8>, i: int) -> u16 {
    le_u16(b, 24 + 2 * i)
}

/// The sections after a consistent header can be read: every string is UTF-8
/// and every token names an entry of the string table.
pub open spec fn sections_valid(b: Seq<u8>) -> bool {
    let h = spec_header(b);
    let pieces = string_pieces(b, strings_start(h), h.string_count as nat);
    &&& forall|i: int| 0 <= i < h.string_count ==> valid_utf8(#[trigger] pieces[i])
    &&& forall|i: int|
        0 <= i < h.token_count ==> word_name_index(#[trigger] token_word(b, i)) < h.string_count
}

/// The error that loading `b` ends in, or `None` where it succeeds.
pub open spec fn load_error(b: Seq<u8>) -> Option<ReadingError> {
    match header_error(b) {
        Some(e) => Some(e),
        None => if sections_valid(b) {
            None
        } else {
            Some(ReadingError::IoError(IoFailure::InvalidData))
        },
    }
}

/// `rec` holds what the sections of `b` encode.
pub open spec fn loads_as(b: Seq<u8>, rec: PersistentDataRecord) -> bool {
    let h = spec_header(b);
    let pieces = string_pieces(b, strings_start(h), h.string_count as nat);
    &&& rec.strings@.len() == h.string_count
    &&& forall|i: int|
        0 <= i < h.string_count ==> (#[trigger] rec.strings@[i])@ == decode_utf8(pieces[i])
    &&& rec.args@.len() == h.arg_count
    &&& forall|i: int|
        0 <= i < h.arg_count ==> #[trigger] rec.args@[i] == le_u32(b, args_start(h) + 4 * i)
    &&& rec.tokens@.len() == h.token_count
    &&& forall|i: int|
        0 <= i < h.token_count ==> {
            let w = token_word(b, i);
            &&& (#[trigger] rec.tokens@[i]).tag() == word_tag(w)
            &&& rec.tokens@[i].name() == rec.strings@[word_name_index(w)]@
        }
}

/// Reads the little-endian 16-bit value at `off`.
pub fn read_u16(input: &[u8], off: usize) -> (r: u16)
    requires
        off + 2 <= input@.len(),
    ensures
        r == le_u16(input@, off as int),
{
    input[off] as u16 + 256 * (input[off + 1] as u16)
}

/// Reads the little-endian 32-bit value at `off`.
pub fn read_u32(input: &[u8], off: usize) -> (r: u32)
    requires
        off + 4 <= input@.len(),
    ensures
        r == le_u32(input@, off as int),
{
    input[off] as u32 + 256 * (input[off + 1] as u32) + 65536 * (input[off + 2] as u32)
        + 16777216 * (input[off + 3] as u32)
}

/// Relies on `String::from_utf8`: it succeeds exactly on valid UTF-8, and the
/// string then holds the characters that the bytes encode.
#[verifier::external_body]
fn string_from_utf8(bytes: Vec<u8>) -> (r: Option<String>)
    ensures
        r is Some <==> valid_utf8(bytes@),
        r matches Some(s) ==> s@ == decode_utf8(bytes@),
{
    String::from_utf8(bytes).ok()
}

proof fn lemma_nul_end_bounds(b: Seq<u8>, pos: int)
    requires
        0 <= pos <= b.len(),
    ensures
        pos <= nul_end(b, pos) <= b.len(),
        nul_end(b, pos) < b.len() ==> b[nul_end(b, pos)] == 0,
    decreases b.len() - pos,
{
    if pos < b.len() && b[pos] != 0 {
        lemma_nul_end_bounds(b, pos + 1);
    }
}

/// Reads the string that starts at `pos`, up to a NUL byte or the end of the
/// input; returns it (`None` where it is not UTF-8) and where the next one starts.
pub fn read_string(input: &[u8], pos: usize) -> (r: (Option<String>, usize))
    requires
        pos <= input@.len(),
    ensures
        r.1 == after_string(input@, pos as int),
        pos <= r.1 <= input@.len(),
        r.0 is Some <==> valid_utf8(string_piece(input@, pos as int)),
        r.0 matches Some(s) ==> s@ == decode_utf8(string_piece(input@, pos as int)),
{
    proof {
        lemma_nul_end_bounds(input@, pos as int);
    }
    let mut bytes: Vec<u8> = Vec::new();
    let mut i: usize = pos;
    while i < input.len() && input[i] != 0
        invariant
            pos <= i <= input@.len(),
            bytes@ == input@.subrange(pos as int, i as int),
            nul_end(input@, pos as int) == nul_end(input@, i as int),
        decreases input@.len() - i,
    {
        bytes.push(input[i]);
        i = i + 1;
    }
    let next = if i < input.len() {
        i + 1
    } else {
        i
    };
    (string_from_utf8(bytes), next)
}

/// Reads and checks the header: the source must hold 24 bytes, the version
/// must be 0, the declared total size must fit in the source and must equal
/// what the counts add up to.
pub fn read_header(input: &[u8]) -> (r: Result<Header, ReadingError>)
    ensures
        match header_error(input@) {
            Some(e) => r == Err::<Header, ReadingError>(e),
            None => r == Ok::<Header, ReadingError>(spec_header(input@)),
        },
{
    if input.len() < HEADER_SIZE {
        return Err(ReadingError::InvalidFileFormat);
    }
    let size = input.len() as u64;
    let version = read_u32(input, 0);
    if version > 0 {
        return Err(ReadingError::UnsupportedVersion(version));
    }
    let total_size = read_u32(input, 4);
    if total_size as u64 > size {
        return Err(ReadingError::ContentTooSmall(total_size, size));
    }
    let token_count = read_u32(input, 8);
    let arg_count = read_u32(input, 12);
    let string_count = read_u32(input, 16);
    let strings_size = read_u32(input, 20);
    let expected_size = HEADER_SIZE as u64 + token_count as u64 * 2 + arg_count as u64 * 4
        + strings_size as u64;
    if total_size as u64 != expected_size {
        return Err(ReadingError::ContentWrongSize(total_size, expected_size));
    }
    Ok(Header { version, total_size, token_count, arg_count, string_count, strings_size })
}

proof fn lemma_pieces_len(b: Seq<u8>, pos: int, n: nat)
    ensures
        string_pieces(b, pos, n).len() == n,
    decreases n,
{
    if n > 0 {
        lemma_pieces_len(b, after_string(b, pos), (n - 1) as nat);
    }
}

/// Reads the `count` strings of the string section that starts at `start`;
/// `None` where one of them is not UTF-8.
fn read_strings(input: &[u8], start: usize, count: u32) -> (r: Option<Vec<String>>)
    requires
        start <= input@.len(),
    ensures
        ({
            let pieces = string_pieces(input@, start as int, count as nat);
            &&& r is Some <==> forall|i: int| 0 <= i < count ==> valid_utf8(#[trigger] pieces[i])
            &&& r matches Some(v) ==> {
                &&& v@.len() == count
                &&& forall|i: int|
                    0 <= i < count ==> (#[trigger] v@[i])@ == decode_utf8(pieces[i])
            }
        }),
{
    let ghost b = input@;
    let ghost pieces = string_pieces(b, start as int, count as nat);
    proof {
        lemma_pieces_len(b, start as int, count as nat);
        assert(pieces.subrange(0, count as int) =~= pieces);
    }
    let mut strings: Vec<String> = Vec::new();
    let mut pos: usize = start;
    let mut k: u32 = 0;
    while k < count
        invariant
            b == input@,
            pos <= b.len(),
            k <= count,
            pieces == string_pieces(b, start as int, count as nat),
            pieces.len() == count,
            pieces.subrange(k as int, count as int) == string_pieces(b, pos as int, (count - k) as nat),
            strings@.len() == k,
            forall|i: int| 0 <= i < k ==> valid_utf8(#[trigger] pieces[i]),
            forall|i: int| 0 <= i < k ==> (#[trigger] strings@[i])@ == decode_utf8(pieces[i]),
        decreases count - k,
    {
        let ghost rest = string_pieces(b, pos as int, (count - k) as nat);
        proof {
            lemma_pieces_len(b, after_string(b, pos as int), (count - k - 1) as nat);
            assert(rest[0] == pieces.subrange(k as int, count as int)[0]);
        }
        let (s, next) = read_string(input, pos);
        match s {
            Some(s) => strings.push(s),
            None => {
                assert(!valid_utf8(pieces[k as int]));
                return None;
            },
        }
        proof {
            assert(rest.subrange(1, rest.len() as int) =~= string_pieces(
                b,
                next as int,
                (count - k - 1) as nat,
            ));
            assert(pieces.subrange(k + 1, count as int) =~= rest.subrange(1, rest.len() as int));
        }
        pos = next;
        k = k + 1;
    }
    Some(strings)
}

/// Reads the `count` arguments of the argument section that starts at `start`.
fn read_args(input: &[u8], start: usize, count: u32) -> (r: Vec<u32>)
    requires
        start + 4 * count <= input@.len(),
    ensures
        r@.len() == count,
        forall|i: int| 0 <= i < count ==> #[trigger] r@[i] == le_u32(input@, start + 4 * i),
{
    let mut args: Vec<u32> = Vec::new();
    let mut j: u32 = 0;
    let len = input.len();
    while j < count
        invariant
            len == input@.len(),
            start + 4 * count <= input@.len(),
            j <= count,
            args@.len() == j,
            forall|i: int| 0 <= i < j ==> #[trigger] args@[i] == le_u32(input@, start + 4 * i),
        decreases count - j,
    {
        args.push(read_u32(input, start + 4 * j as usize));
        j = j + 1;
    }
    args
}

/// Reads the `count` token words that follow the header and resolves their
/// names in `strings`; `None` where a name index is past the end of the table.
fn read_tokens(input: &[u8], count: u32, strings: &Vec<String>) -> (r: Option<Vec<Tokens>>)
    requires
        24 + 2 * count <= input@.len(),
    ensures
        r is Some <==> forall|i: int|
            0 <= i < count ==> word_name_index(#[trigger] token_word(input@, i)) < strings@.len(),
        r matches Some(v) ==> {
            &&& v@.len() == count
            &&& forall|i: int|
                0 <= i < count ==> (#[trigger] v@[i]).tag() == word_tag(token_word(input@, i))
                    && v@[i].name() == strings@[word_name_index(token_word(input@, i))]@
        },
{
    let mut tokens: Vec<Tokens> = Vec::new();
    let mut t: u32 = 0;
    let len = input.len();
    while t < count
        invariant
            len == input@.len(),
            24 + 2 * count <= input@.len(),
            t <= count,
            tokens@.len() == t,
            forall|i: int|
                0 <= i < t ==> word_name_index(#[trigger] token_word(input@, i)) < strings@.len(),
            forall|i: int|
                0 <= i < t ==> (#[trigger] tokens@[i]).tag() == word_tag(token_word(input@, i))
                    && tokens@[i].name() == strings@[word_name_index(token_word(input@, i))]@,
        decreases count - t,
    {
        let word = read_u16(input, HEADER_SIZE + 2 * t as usize);
        match parse_token(word, strings) {
            Some(token) => tokens.push(token),
            None => {
                assert(word_name_index(token_word(input@, t as int)) >= strings@.len());
                return None;
            },
        }
        t = t + 1;
    }
    Some(tokens)
}

/// Loads a record from the bytes of a record file: checks the header, then
/// reads the token words, the arguments and the strings, and resolves each
/// token's name through the string table.
pub fn read_index_bytes(input: &[u8]) -> (r: Result<PersistentDataRecord, ReadingError>)
    ensures
        match load_error(input@) {
            Some(e) => r == Err::<PersistentDataRecord, ReadingError>(e),
            None => r matches Ok(rec) && loads_as(input@, rec),
        },
{
    let header = match read_header(input) {
        Ok(h) => h,
        Err(e) => return Err(e),
    };
    let ghost b = input@;
    let ghost h = spec_header(b);
    assert(header_error(b) is None && header == h);
    assert(expected_size(h) <= b.len());
    let args_at: usize = HEADER_SIZE + 2 * header.token_count as usize;
    let strings_at: usize = args_at + 4 * header.arg_count as usize;
    assert(args_at == args_start(h) && strings_at == strings_start(h));
    let strings = match read_strings(input, strings_at, header.string_count) {
        Some(s) => s,
        None => {
            assert(!sections_valid(b));
            return Err(ReadingError::IoError(IoFailure::InvalidData));
        },
    };
    let args = read_args(input, args_at, header.arg_count);
    let tokens = match read_tokens(input, header.token_count, &strings) {
        Some(t) => t,
        None => {
            assert(!sections_valid(b));
            return Err(ReadingError::IoError(IoFailure::InvalidData));
        },
    };
    assert(sections_valid(b));
    Ok(PersistentDataRecord { tokens, args, strings })
}

/// A source shorter than a header is refused as an invalid file, whatever
/// its bytes are.
pub proof fn short_source_is_invalid(b: Seq<u8>)
    requires
        b.len() < 24,
    ensures
        load_error(b) == Some(ReadingError::InvalidFileFormat),
{
}

/// A header whose version is not 0 is refused with that version, and the
/// refusal depends on nothing but the version field: any source of header
/// length that starts with the same four bytes is refused the same way.
pub proof fn other_version_is_refused(b: Seq<u8>, c: Seq<u8>)
    requires
        b.len() >= 24,
        le_u32(b, 0) != 0,
        c.len() >= 24,
        c.subrange(0, 4) == b.subrange(0, 4),
    ensures
        load_error(b) == Some(ReadingError::UnsupportedVersion(le_u32(b, 0))),
        load_error(c) == load_error(b),
{
    assert(c[0] == c.subrange(0, 4)[0] && c[1] == c.subrange(0, 4)[1]);
    assert(c[2] == c.subrange(0, 4)[2] && c[3] == c.subrange(0, 4)[3]);
    assert(b[0] == b.subrange(0, 4)[0] && b[1] == b.subrange(0, 4)[1]);
    assert(b[2] == b.subrange(0, 4)[2] && b[3] == b.subrange(0, 4)[3]);
    assert(le_u32(c, 0) == le_u32(b, 0));
}

/// A header of version 0 whose total size fits in the source but differs
/// from what its counts add up to is refused with both sizes.
pub proof fn inconsistent_size_is_refused(b: Seq<u8>)
    requires
        b.len() >= 24,
        spec_header(b).version == 0,
        spec_header(b).total_size <= b.len(),
        spec_header(b).total_size != expected_size(spec_header(b)),
    ensures
        load_error(b) == Some(
            ReadingError::ContentWrongSize(
                spec_header(b).total_size,
                expected_size(spec_header(b)) as u64,
            ),
        ),
{
}

/// Changing the token count (offset 8), the argument count (offset 12) or
/// the strings size (offset 20) of a header that passes the checks, with the
/// total size and everything else kept, makes the sizes disagree.
pub proof fn changed_count_is_refused(b: Seq<u8>, c: Seq<u8>, field: int)
    requires
        header_error(b) is None,
        field == 8 || field == 12 || field == 20,
        c.len() == b.len(),
        forall|i: int| 0 <= i < b.len() && !(field <= i < field + 4) ==> c[i] == b[i],
        le_u32(c, field) != le_u32(b, field),
    ensures
        load_error(c) == Some(
            ReadingError::ContentWrongSize(
                spec_header(c).total_size,
                expected_size(spec_header(c)) as u64,
            ),
        ),
{
    assert(c[0] == b[0] && c[1] == b[1] && c[2] == b[2] && c[3] == b[3]);
    assert(c[4] == b[4] && c[5] == b[5] && c[6] == b[6] && c[7] == b[7]);
    assert(field != 8 ==> c[8] == b[8] && c[9] == b[9] && c[10] == b[10] && c[11] == b[11]);
    assert(field != 12 ==> c[12] == b[12] && c[13] == b[13] && c[14] == b[14] && c[15] == b[15]);
    assert(c[16] == b[16] && c[17] == b[17] && c[18] == b[18] && c[19] == b[19]);
    assert(field != 20 ==> c[20] == b[20] && c[21] == b[21] && c[22] == b[22] && c[23] == b[23]);
}

} // verus!
