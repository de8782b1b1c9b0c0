use pdr::error::{IoFailure, ReadingError};
use pdr::format::de::Deserializer;
use pdr::format::error::Error;
use pdr::pd::{Header, TType, Tokens};
use pdr::reader::{read_header, read_index_bytes, read_string, read_u16, read_u32};

fn le32(v: u32) -> [u8; 4] {
    v.to_le_bytes()
}

/// A record file with the given header fields, token words, arguments and
/// string section.
fn file(header: [u32; 6], words: &[u16], args: &[u32], strings: &[u8]) -> Vec<u8> {
    let mut b = Vec::new();
    for f in header.iter() {
        b.extend_from_slice(&le32(*f));
    }
    for w in words {
        b.extend_from_slice(&w.to_le_bytes());
    }
    for a in args {
        b.extend_from_slice(&le32(*a));
    }
    b.extend_from_slice(strings);
    b
}

fn consistent(words: &[u16], args: &[u32], strings: &[u8], string_count: u32) -> Vec<u8> {
    let total = 24 + 2 * words.len() + 4 * args.len() + strings.len();
    file(
        [
            0,
            total as u32,
            words.len() as u32,
            args.len() as u32,
            string_count,
            strings.len() as u32,
        ],
        words,
        args,
        strings,
    )
}

#[test]
fn short_sources_are_invalid() {
    for n in 0..24usize {
        let zeros = vec![0u8; n];
        assert_eq!(read_index_bytes(&zeros).unwrap_err(), ReadingError::InvalidFileFormat);
        let ones = vec![0xffu8; n];
        assert_eq!(read_header(&ones), Err(ReadingError::InvalidFileFormat));
    }
}

#[test]
fn other_version_is_refused_first() {
    let b = file([1, 9999, 77, 0, 0, 0], &[], &[], &[]);
    assert_eq!(read_index_bytes(&b).unwrap_err(), ReadingError::UnsupportedVersion(1));
    let b = file([0x0102_0304, 24, 0, 0, 0, 0], &[], &[], &[]);
    assert_eq!(read_header(&b), Err(ReadingError::UnsupportedVersion(0x0102_0304)));
}

#[test]
fn total_size_past_source_is_refused() {
    let b = file([0, 100, 0, 0, 0, 0], &[], &[], &[]);
    assert_eq!(read_index_bytes(&b).unwrap_err(), ReadingError::ContentTooSmall(100, 24));
}

#[test]
fn changed_counts_are_refused() {
    let b = consistent(&[3], &[5], b"count\0", 1);
    assert!(read_index_bytes(&b).is_ok());
    for (field, wrong) in [(8usize, 2u32), (12, 0), (20, 5)] {
        let mut c = b.clone();
        c[field..field + 4].copy_from_slice(&le32(wrong));
        let expected = match field {
            8 => 24 + 2 * 2 + 4 + 6,
            12 => 24 + 2 + 6,
            _ => 24 + 2 + 4 + 5,
        };
        assert_eq!(
            read_index_bytes(&c).unwrap_err(),
            ReadingError::ContentWrongSize(36, expected)
        );
    }
}

#[test]
fn round_trip_single_count() {
    // One unsigned token (tag 3) named by string 0, one argument 5.
    let b = consistent(&[3], &[5], b"count\0", 1);
    let rec = read_index_bytes(&b).unwrap();
    assert_eq!(rec.tokens, vec![Tokens::UINT_TOKEN("count".to_string())]);
    assert_eq!(rec.args, vec![5]);
    assert_eq!(rec.strings, vec!["count".to_string()]);
    let mut de = Deserializer::from_pdr(&rec);
    assert_eq!(de.expect_scalar("count", TType::UINT32), Ok(5));
    assert_eq!(de.position(), (1, 1));
    assert_eq!(de.peek_token(), Err(Error::NoMoreTokens));
}

#[test]
fn minimal_file_is_empty() {
    let b = file([0, 24, 0, 0, 0, 0], &[], &[], &[]);
    assert_eq!(
        read_header(&b),
        Ok(Header {
            version: 0,
            total_size: 24,
            token_count: 0,
            arg_count: 0,
            string_count: 0,
            strings_size: 0,
        })
    );
    let rec = read_index_bytes(&b).unwrap();
    assert!(rec.tokens.is_empty() && rec.args.is_empty() && rec.strings.is_empty());
    let mut de = Deserializer::from_pdr(&rec);
    assert_eq!(de.expect_scalar("anything", TType::UINT32), Err(Error::NoMoreTokens));
    assert_eq!(de.expect_scalar("x", TType::STRING), Err(Error::NoMoreTokens));
    assert_eq!(de.read_string("x"), Err(Error::NoMoreTokens));
}

#[test]
fn token_words_resolve_names_and_tags() {
    // Tags 0..7 with names 1, 0, 1, ...
    let words: Vec<u16> = (0u16..8).map(|t| ((t % 2) << 3) | t).collect();
    let b = consistent(&words, &[], b"a\0bc\0", 2);
    let rec = read_index_bytes(&b).unwrap();
    let a = || "a".to_string();
    let bc = || "bc".to_string();
    assert_eq!(
        rec.tokens,
        vec![
            Tokens::BEGIN_TOKEN(a()),
            Tokens::END_TOKEN(bc()),
            Tokens::SINT_TOKEN(a()),
            Tokens::UINT_TOKEN(bc()),
            Tokens::FLOAT_TOKEN(a()),
            Tokens::STRING_TOKEN(bc()),
            Tokens::FLAG_TOKEN(a()),
            Tokens::EXTEND_TOKEN(bc()),
        ]
    );
}

#[test]
fn name_index_past_table_is_invalid_data() {
    let b = consistent(&[(2 << 3) | 3], &[], b"a\0b\0", 2);
    assert_eq!(
        read_index_bytes(&b).unwrap_err(),
        ReadingError::IoError(IoFailure::InvalidData)
    );
}

#[test]
fn invalid_utf8_is_invalid_data() {
    let b = consistent(&[], &[], &[0xff, 0xfe, 0], 1);
    assert_eq!(
        read_index_bytes(&b).unwrap_err(),
        ReadingError::IoError(IoFailure::InvalidData)
    );
}

#[test]
fn strings_decode_utf8_and_last_may_lack_nul() {
    let b = consistent(&[], &[], "héllo\0wörld".as_bytes(), 2);
    let rec = read_index_bytes(&b).unwrap();
    assert_eq!(rec.strings, vec!["héllo".to_string(), "wörld".to_string()]);
}

#[test]
fn missing_strings_read_as_empty() {
    let b = consistent(&[], &[], b"x\0", 3);
    let rec = read_index_bytes(&b).unwrap();
    assert_eq!(rec.strings, vec!["x".to_string(), String::new(), String::new()]);
}

#[test]
fn arguments_are_little_endian() {
    let b = consistent(&[], &[0x0403_0201, 0xdead_beef], &[], 0);
    let rec = read_index_bytes(&b).unwrap();
    assert_eq!(rec.args, vec![0x0403_0201, 0xdead_beef]);
}

#[test]
fn byte_readers() {
    let b = [0x01u8, 0x02, 0x03, 0x04, 0x05];
    assert_eq!(read_u16(&b, 0), 0x0201);
    assert_eq!(read_u16(&b, 3), 0x0504);
    assert_eq!(read_u32(&b, 1), 0x0504_0302);
    let s = b"ab\0cd";
    assert_eq!(read_string(s, 0), (Some("ab".to_string()), 3));
    assert_eq!(read_string(s, 3), (Some("cd".to_string()), 5));
    assert_eq!(read_string(s, 5), (Some(String::new()), 5));
    assert_eq!(read_string(&[0xc3, 0x28, 0], 0), (None, 3));
}
