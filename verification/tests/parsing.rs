use miden_bridge::ids::{is_valid_account_id, is_valid_note_id};
use miden_bridge::parse::{clean_part_bytes, parse_note_ids_json, strip_bytes, trim_bytes};
use miden_bridge::utf8::is_utf8;

const ACCOUNT: &str = "0xa1b2c3d4e5f60718293a4b5c6d7e8f";
const NOTE_A: &str = "0x0123456789abcdef0123456789abcdef0123456789abcdef0123456789abcdef";
const NOTE_B: &str = "0xFEDCBA9876543210fedcba9876543210FEDCBA9876543210fedcba9876543210";

#[test]
fn account_id_grammar() {
    assert!(is_valid_account_id(ACCOUNT.as_bytes()));
    assert!(!is_valid_account_id(b"not-hex"));
    assert!(!is_valid_account_id(b""));
    // Wrong length.
    assert!(!is_valid_account_id(b"0xa1b2c3"));
    // Missing prefix.
    assert!(!is_valid_account_id(b"a1b2c3d4e5f60718293a4b5c6d7e8f00"));
    // A stray non-hex digit.
    assert!(!is_valid_account_id(b"0xg1b2c3d4e5f60718293a4b5c6d7e8f"));
}

#[test]
fn note_id_grammar() {
    assert!(is_valid_note_id(NOTE_A.as_bytes()));
    assert!(is_valid_note_id(NOTE_B.as_bytes()));
    assert!(!is_valid_note_id(ACCOUNT.as_bytes()));
    assert!(!is_valid_note_id(b"0x123"));
}

#[test]
fn trim_removes_surrounding_whitespace() {
    assert_eq!(trim_bytes(b"  hello \t\r\n"), b"hello".to_vec());
    assert_eq!(trim_bytes(b""), Vec::<u8>::new());
    assert_eq!(trim_bytes(b" \t "), Vec::<u8>::new());
    assert_eq!(trim_bytes(b"a b"), b"a b".to_vec());
}

#[test]
fn strip_removes_surrounding_quotes_only() {
    assert_eq!(strip_bytes(b"\"\"abc\"", b'"'), b"abc".to_vec());
    assert_eq!(strip_bytes(b"a\"b", b'"'), b"a\"b".to_vec());
    assert_eq!(clean_part_bytes(b"  '0xab' "), b"0xab".to_vec());
    assert_eq!(clean_part_bytes(b" \"0xab\" "), b"0xab".to_vec());
}

#[test]
fn empty_array_parses_to_empty_list() {
    assert_eq!(parse_note_ids_json(b"[]"), Some(vec![]));
    assert_eq!(parse_note_ids_json(b"  [   ]  "), Some(vec![]));
}

#[test]
fn single_and_double_quoted_ids_parse() {
    let text = format!("[\"{}\", '{}']", NOTE_A, NOTE_B);
    let ids = parse_note_ids_json(text.as_bytes()).expect("must parse");
    assert_eq!(ids.len(), 2);
    assert_eq!(ids[0], NOTE_A.as_bytes().to_vec());
    assert_eq!(ids[1], NOTE_B.as_bytes().to_vec());
}

#[test]
fn unbracketed_text_is_rejected() {
    assert!(parse_note_ids_json(b"not an array").is_none());
    assert!(parse_note_ids_json(b"").is_none());
    assert!(parse_note_ids_json(b"[").is_none());
    assert!(parse_note_ids_json(format!("\"{}\"", NOTE_A).as_bytes()).is_none());
}

#[test]
fn utf8_accepts_well_formed_text() {
    assert!(is_utf8(b""));
    assert!(is_utf8(b"plain ascii"));
    assert!(is_utf8("h\u{e9}llo w\u{f6}rld".as_bytes()));
    assert!(is_utf8("\u{65e5}\u{672c}\u{8a9e}".as_bytes()));
    assert!(is_utf8("\u{1f980}\u{1f980}".as_bytes()));
}

#[test]
fn utf8_rejects_malformed_bytes() {
    // Stray continuation byte.
    assert!(!is_utf8(&[0x80]));
    // Truncated multi-byte sequences.
    assert!(!is_utf8(&[0xc3]));
    assert!(!is_utf8(&[0xe2, 0x82]));
    assert!(!is_utf8(&[0xf0, 0x9f, 0xa6]));
    // Overlong encodings.
    assert!(!is_utf8(&[0xc0, 0x80]));
    assert!(!is_utf8(&[0xe0, 0x80, 0x80]));
    assert!(!is_utf8(&[0xf0, 0x80, 0x80, 0x80]));
    // The surrogate range.
    assert!(!is_utf8(&[0xed, 0xa0, 0x80]));
    // Beyond the last Unicode scalar.
    assert!(!is_utf8(&[0xf4, 0x90, 0x80, 0x80]));
    // Impossible leading bytes.
    assert!(!is_utf8(&[0xf8, 0x88, 0x80, 0x80, 0x80]));
    assert!(!is_utf8(&[0xff]));
}

#[test]
fn utf8_agrees_with_the_standard_library() {
    for a in 0u8..=255 {
        assert_eq!(is_utf8(&[a]), std::str::from_utf8(&[a]).is_ok());
    }
    for a in 0u8..=255 {
        for b in 0u8..=255 {
            let pair = [a, b];
            assert_eq!(is_utf8(&pair), std::str::from_utf8(&pair).is_ok());
        }
    }
}

#[test]
fn invalid_element_rejects_the_whole_list() {
    let text = format!("[\"{}\", \"0xzz\"]", NOTE_A);
    assert!(parse_note_ids_json(text.as_bytes()).is_none());
    assert!(parse_note_ids_json(b"[\"0x123\"]").is_none());
    // A lone comma means two empty elements, neither a note id.
    assert!(parse_note_ids_json(b"[,]").is_none());
}
