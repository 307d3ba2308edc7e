use henflow::http_structs::{
    HicDexResponseDataTokens, TokenMetadataBigMap, TokenMetadataBigMapInfo, TokenMetadataBigMapValue,
};
use henflow::ledger::{decode_pointer, record_from_entry, records_from_entries, PointerFault};

fn entry(key: &str, value: &str) -> TokenMetadataBigMap {
    TokenMetadataBigMap {
        key: key.to_string(),
        value: TokenMetadataBigMapValue {
            token_info: TokenMetadataBigMapInfo { value: value.to_string() },
        },
    }
}

#[test]
fn a_pointer_is_the_text_that_its_hex_spells() {
    assert_eq!(decode_pointer("697066733a2f2f516d4d657461"), Ok("ipfs://QmMeta".to_string()));
    assert_eq!(decode_pointer("6b697769"), Ok("kiwi".to_string()));
    assert_eq!(decode_pointer(""), Ok(String::new()));
}

#[test]
fn hex_digits_of_either_case_are_read() {
    assert_eq!(decode_pointer("4a4B6c6D"), Ok("JKlm".to_string()));
    assert_eq!(decode_pointer("c3a9"), Ok("\u{e9}".to_string()));
    assert_eq!(decode_pointer("C3A9"), Ok("\u{e9}".to_string()));
    assert_eq!(decode_pointer("f09f9880"), Ok("\u{1F600}".to_string()));
}

#[test]
fn what_is_not_hex_is_no_pointer() {
    assert_eq!(decode_pointer("6b6977693"), Err(PointerFault::Hex));
    assert_eq!(decode_pointer("6b69g769"), Err(PointerFault::Hex));
    assert_eq!(decode_pointer("ipfs://QmMeta"), Err(PointerFault::Hex));
    assert_eq!(decode_pointer("6b 69"), Err(PointerFault::Hex));
    assert_eq!(decode_pointer("\u{e9}"), Err(PointerFault::Hex));
    assert_eq!(decode_pointer("0x6b69"), Err(PointerFault::Hex));
}

#[test]
fn hex_of_what_is_no_text_is_no_pointer() {
    assert_eq!(decode_pointer("ff"), Err(PointerFault::Utf8));
    assert_eq!(decode_pointer("c3"), Err(PointerFault::Utf8));
    assert_eq!(decode_pointer("6b69c328"), Err(PointerFault::Utf8));
    assert_eq!(decode_pointer("eda080"), Err(PointerFault::Utf8));
}

#[test]
fn faults_are_told_in_words() {
    assert_eq!(PointerFault::Hex.reason(), "The pointer is not hex");
    assert_eq!(PointerFault::Utf8.reason(), "The pointer is not the hex of a text");
}

#[test]
fn an_entry_is_a_record_by_its_key() {
    assert_eq!(
        record_from_entry(&entry("152", "6b697769")).map(|record| (record.id, record.artifact_uri)),
        Some((152, "6b697769".to_string()))
    );
    assert_eq!(
        record_from_entry(&entry("+7", "not hex")).map(|record| (record.id, record.artifact_uri)),
        Some((7, "not hex".to_string()))
    );
    assert!(record_from_entry(&entry("", "6b697769")).is_none());
    assert!(record_from_entry(&entry("12a", "6b697769")).is_none());
    assert!(record_from_entry(&entry("18446744073709551616", "6b697769")).is_none());
}

fn ids_and_references(records: Vec<HicDexResponseDataTokens>) -> Vec<(u64, String)> {
    records.into_iter().map(|record| (record.id, record.artifact_uri)).collect()
}

#[test]
fn a_page_of_entries_is_a_page_of_records() {
    let page = vec![entry("3", "6162"), entry("1", "zz"), entry("2", "")];
    assert_eq!(
        records_from_entries(&page).map(ids_and_references),
        Ok(vec![(3, "6162".to_string()), (1, "zz".to_string()), (2, String::new())])
    );
    assert_eq!(records_from_entries(&Vec::new()).map(ids_and_references), Ok(Vec::new()));
}

#[test]
fn the_first_entry_without_an_id_fails_the_page() {
    let page = vec![entry("3", "6162"), entry("x", "6162"), entry("2", "6162"), entry("", "6162")];
    assert_eq!(records_from_entries(&page).map(ids_and_references), Err(1));
    let page = vec![entry("-3", "6162")];
    assert_eq!(records_from_entries(&page).map(ids_and_references), Err(0));
}
