use pdr::pd::{decode_word, parse_token, token2Type, TType, Tokens};

#[test]
fn word_splits_into_tag_and_index() {
    assert_eq!(decode_word(0), (0, 0));
    assert_eq!(decode_word(0b1010_1011), (3, 0b1_0101));
    assert_eq!(decode_word(0xffff), (7, 0x1fff));
}

#[test]
fn parse_token_looks_up_name() {
    let strings = vec!["zero".to_string(), "one".to_string()];
    assert_eq!(
        parse_token((1 << 3) | 5, &strings),
        Some(Tokens::STRING_TOKEN("one".to_string()))
    );
    assert_eq!(
        parse_token(7, &strings),
        Some(Tokens::EXTEND_TOKEN("zero".to_string()))
    );
    assert_eq!(parse_token(2 << 3, &strings), None);
}

#[test]
fn value_is_the_name() {
    assert_eq!(Tokens::FLAG_TOKEN("f".to_string()).value(), "f");
    assert_eq!(Tokens::END_TOKEN("e".to_string()).value(), "e");
}

#[test]
fn plain_and_wide_types() {
    let t = |k: fn(String) -> Tokens| k("n".to_string());
    assert_eq!(token2Type(&t(Tokens::SINT_TOKEN), false), Some(TType::SINT32));
    assert_eq!(token2Type(&t(Tokens::SINT_TOKEN), true), Some(TType::SINT64));
    assert_eq!(token2Type(&t(Tokens::UINT_TOKEN), true), Some(TType::UINT64));
    assert_eq!(token2Type(&t(Tokens::FLOAT_TOKEN), false), Some(TType::FLOAT32));
    assert_eq!(token2Type(&t(Tokens::FLOAT_TOKEN), true), Some(TType::FLOAT64));
    assert_eq!(token2Type(&t(Tokens::STRING_TOKEN), true), Some(TType::EXTEND_TYPE));
    assert_eq!(token2Type(&t(Tokens::BEGIN_TOKEN), false), Some(TType::STRUCT_BEGIN));
    assert_eq!(token2Type(&t(Tokens::FLAG_TOKEN), false), Some(TType::FLAG));
    assert_eq!(token2Type(&t(Tokens::EXTEND_TOKEN), false), None);
}

#[test]
fn no_wide_form_for_brackets_flags_and_markers() {
    let t = |k: fn(String) -> Tokens| k("n".to_string());
    assert_eq!(token2Type(&t(Tokens::BEGIN_TOKEN), true), None);
    assert_eq!(token2Type(&t(Tokens::END_TOKEN), true), None);
    assert_eq!(token2Type(&t(Tokens::FLAG_TOKEN), true), None);
    assert_eq!(token2Type(&t(Tokens::EXTEND_TOKEN), true), None);
}

#[test]
fn extended_types() {
    assert!(TType::UINT64.is_extended());
    assert!(TType::EXTEND_TYPE.is_extended());
    assert!(!TType::UINT32.is_extended());
    assert!(!TType::STRUCT_BEGIN.is_extended());
}
