use miden_bridge::digest::keccak256_bytes;
use miden_bridge::format::{accounts_json_bytes, balance_json_bytes, notes_json_bytes};
use miden_bridge::hexfmt::hex_encode_bytes;
use miden_bridge::outcome::{AssetView, NoteView};

fn fungible(faucet: &str, amount: u64) -> AssetView {
    AssetView::Fungible { faucet_id: faucet.as_bytes().to_vec(), amount }
}

#[test]
fn empty_account_list_is_empty_array() {
    let out = accounts_json_bytes(&vec![]);
    assert_eq!(out, b"[]".to_vec());
}

#[test]
fn account_list_quotes_each_id() {
    let ids = vec![b"0xaa".to_vec(), b"0xbb".to_vec()];
    let out = accounts_json_bytes(&ids);
    assert_eq!(String::from_utf8(out).unwrap(), r#"["0xaa","0xbb"]"#);
}

#[test]
fn balance_document_shape() {
    let assets = vec![fungible("0xff", 1000), AssetView::NonFungible, fungible("0xaa", 5)];
    let out = balance_json_bytes(b"0x1234", &assets);
    let expected = r#"{"account_id":"0x1234","fungible_assets":[{"faucet_id":"0xff","amount":1000},{"faucet_id":"0xaa","amount":5}],"total_fungible_count":2,"total_non_fungible_count":1}"#;
    assert_eq!(String::from_utf8(out).unwrap(), expected);
}

#[test]
fn balance_document_with_no_assets() {
    let out = balance_json_bytes(b"0x1234", &vec![]);
    assert_eq!(
        String::from_utf8(out).unwrap(),
        r#"{"account_id":"0x1234","fungible_assets":[],"total_fungible_count":0,"total_non_fungible_count":0}"#
    );
}

#[test]
fn empty_notes_document() {
    let out = notes_json_bytes(&vec![]);
    assert_eq!(String::from_utf8(out).unwrap(), r#"{"notes":[],"total_count":0}"#);
}

#[test]
fn notes_document_shape() {
    let notes = vec![
        NoteView {
            note_id: b"0xab".to_vec(),
            assets: vec![fungible("0xcc", 7), AssetView::NonFungible],
            is_authenticated: true,
        },
        NoteView { note_id: b"0xcd".to_vec(), assets: vec![], is_authenticated: false },
    ];
    let out = notes_json_bytes(&notes);
    let expected = r#"{"notes":[{"note_id":"0xab","assets":[{"faucet_id":"0xcc","amount":7}],"is_authenticated":true},{"note_id":"0xcd","assets":[],"is_authenticated":false}],"total_count":2}"#;
    assert_eq!(String::from_utf8(out).unwrap(), expected);
}

#[test]
fn amounts_cover_the_decimal_range() {
    let assets = vec![fungible("0x00", 0), fungible("0x01", u64::MAX)];
    let out = balance_json_bytes(b"0x9", &assets);
    let expected = r#"{"account_id":"0x9","fungible_assets":[{"faucet_id":"0x00","amount":0},{"faucet_id":"0x01","amount":18446744073709551615}],"total_fungible_count":2,"total_non_fungible_count":0}"#;
    assert_eq!(String::from_utf8(out).unwrap(), expected);
}

#[test]
fn hex_encoding_is_lowercase_two_digits_per_byte() {
    assert_eq!(hex_encode_bytes(&[0xbe, 0xef]), b"beef".to_vec());
    assert_eq!(hex_encode_bytes(&[0x01, 0x02, 0x03, 0x0f, 0x10]), b"0102030f10".to_vec());
    assert_eq!(hex_encode_bytes(&[0x00]), b"00".to_vec());
    assert_eq!(hex_encode_bytes(&[]), Vec::<u8>::new());
}

#[test]
fn keccak256_known_vectors() {
    let empty = keccak256_bytes(b"");
    assert_eq!(
        hex_encode_bytes(&empty),
        b"c5d2460186f7233c927e7db2dcc703c0e500b653ca82273b7bfad8045d85a470".to_vec()
    );
    let abc = keccak256_bytes(b"abc");
    assert_eq!(
        hex_encode_bytes(&abc),
        b"4e03657aea45a94fc7d47ba826c8d667c0d1e6e33a64a036ec44f58fa12d6c45".to_vec()
    );
    assert_eq!(abc.len(), 32);
}
