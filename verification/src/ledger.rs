//! The ledger's big map as a source of discovery records: each key is a
//! token id in decimal, each value a pointer in hex.

use vstd::prelude::*;
use vstd::string::StringSliceAdditionalSpecFns;
use vstd::utf8::{decode_utf8, encode_utf8, valid_utf8};
use crate::decimal::{parse_u64, parsed_u64};
use crate::http_structs::{HicDexResponseDataTokens, RecordModel, TokenMetadataBigMap};

verus! {

/// The error of `hex::decode`, of which nothing is looked at but that it
/// is there.
#[verifier::external_type_specification]
#[verifier::external_body]
pub struct ExFromHexError(hex::FromHexError);

/// The error of `String::from_utf8`, of which nothing is looked at but that
/// it is there.
#[verifier::external_type_specification]
#[verifier::external_body]
pub struct ExFromUtf8Error(std::string::FromUtf8Error);

pub open spec fn is_hex_digit(byte: u8) -> bool {
    ||| 0x30 <= byte <= 0x39
    ||| 0x41 <= byte <= 0x46
    ||| 0x61 <= byte <= 0x66
}

/// The value of a hex digit, in either case.
pub open spec fn hex_digit_value(byte: u8) -> nat
    recommends
        is_hex_digit(byte),
{
    if 0x30 <= byte <= 0x39 {
        (byte - 0x30) as nat
    } else if 0x41 <= byte <= 0x46 {
        (byte - 0x41 + 10) as nat
    } else {
        (byte - 0x61 + 10) as nat
    }
}

/// Whether `text` is hex: an even number of hex digits.
pub open spec fn is_hex(text: Seq<u8>) -> bool {
    &&& text.len() % 2 == 0
    &&& forall|i: int| 0 <= i < text.len() ==> is_hex_digit(#[trigger] text[i])
}

/// The bytes that hex `text` stands for: one for each pair of digits, the
/// first digit of a pair being the high half.
pub open spec fn hex_decoded(text: Seq<u8>) -> Seq<u8> {
    Seq::new(
        text.len() / 2,
        |i: int| (hex_digit_value(text[2 * i]) * 16 + hex_digit_value(text[2 * i + 1])) as u8,
    )
}

/// `hex::decode`: succeeds exactly on an even number of hex digits, upper
/// and lower case alike, and then returns the byte of each pair, high digit
/// first.
#[verifier::external_body]
fn hex_decode(text: &[u8]) -> (decoded: Result<Vec<u8>, hex::FromHexError>)
    ensures
        decoded is Ok <==> is_hex(text@),
        decoded matches Ok(bytes) ==> bytes@ == hex_decoded(text@),
{
    hex::decode(text)
}

/// `String::from_utf8`: succeeds exactly on valid UTF-8, and then returns
/// the string that the bytes encode.
pub assume_specification[ String::from_utf8 ](bytes: Vec<u8>) -> (text: Result<
    String,
    std::string::FromUtf8Error,
>)
    ensures
        text is Ok <==> valid_utf8(bytes@),
        text matches Ok(decoded) ==> decoded@ == decode_utf8(bytes@),
;

/// Why a pointer cannot be decoded.
#[derive(Clone, Copy, Debug, PartialEq, Eq, Structural)]
pub enum PointerFault {
    /// It is not hex.
    Hex,
    /// It is hex, but not of a text.
    Utf8,
}

pub const NOT_HEX: &'static str = "The pointer is not hex";

pub const NOT_TEXT: &'static str = "The pointer is not the hex of a text";

impl PointerFault {
    /// The fault in words.
    pub open spec fn spec_reason(self) -> &'static str {
        match self {
            PointerFault::Hex => NOT_HEX,
            PointerFault::Utf8 => NOT_TEXT,
        }
    }

    #[verifier::when_used_as_spec(spec_reason)]
    pub fn reason(self) -> (reason: &'static str)
        ensures
            reason == self.spec_reason(),
    {
        match self {
            PointerFault::Hex => NOT_HEX,
            PointerFault::Utf8 => NOT_TEXT,
        }
    }
}

/// The pointer that the value of a big-map entry stands for: the text whose
/// UTF-8 bytes the value gives in hex.
pub open spec fn pointer_of(value: Seq<char>) -> Result<Seq<char>, PointerFault> {
    let digits = encode_utf8(value);
    if !is_hex(digits) {
        Err(PointerFault::Hex)
    } else if !valid_utf8(hex_decoded(digits)) {
        Err(PointerFault::Utf8)
    } else {
        Ok(decode_utf8(hex_decoded(digits)))
    }
}

/// Decodes the value of a big-map entry into the pointer it stands for.
pub fn decode_pointer(value: &str) -> (pointer: Result<String, PointerFault>)
    ensures
        match pointer {
            Ok(text) => pointer_of(value@) == Ok::<Seq<char>, PointerFault>(text@),
            Err(fault) => pointer_of(value@) == Err::<Seq<char>, PointerFault>(fault),
        },
{
    let bytes = match hex_decode(value.as_bytes()) {
        Ok(bytes) => bytes,
        Err(_) => {
            return Err(PointerFault::Hex);
        },
    };
    match String::from_utf8(bytes) {
        Ok(text) => Ok(text),
        Err(_) => Err(PointerFault::Utf8),
    }
}

/// The discovery record that an entry of the big map stands for, where its
/// key is a token id: that id, with the entry's value, still in hex, as
/// the reference.
pub open spec fn record_of(entry: TokenMetadataBigMap) -> Option<RecordModel> {
    match parsed_u64(entry.key@) {
        Some(id) => Some(RecordModel { artifact_uri: entry.value.token_info.value@, id }),
        None => None,
    }
}

/// Turns one entry of the big map into a discovery record.
pub fn record_from_entry(entry: &TokenMetadataBigMap) -> (record: Option<HicDexResponseDataTokens>)
    ensures
        record.deep_view() == record_of(*entry),
{
    match parse_u64(entry.key.as_str()) {
        Some(id) => Some(
            HicDexResponseDataTokens { artifact_uri: entry.value.token_info.value.clone(), id },
        ),
        None => None,
    }
}

/// Turns a page of the big map into discovery records, in the page's
/// order. An entry whose key is no token id fails the page: the position
/// of the first such entry is the error.
pub fn records_from_entries(entries: &Vec<TokenMetadataBigMap>) -> (records: Result<
    Vec<HicDexResponseDataTokens>,
    usize,
>)
    ensures
        match records {
            Ok(records) => {
                &&& records.len() == entries.len()
                &&& forall|i: int|
                    0 <= i < entries.len() ==> record_of(#[trigger] entries[i]) == Some(
                        records[i]@,
                    )
            },
            Err(index) => {
                &&& index < entries.len()
                &&& record_of(entries[index as int]) is None
                &&& forall|i: int| 0 <= i < index ==> record_of(#[trigger] entries[i]) is Some
            },
        },
{
    let mut records: Vec<HicDexResponseDataTokens> = Vec::new();
    let mut at: usize = 0;
    while at < entries.len()
        invariant
            at <= entries.len(),
            records.len() == at,
            forall|i: int|
                0 <= i < at ==> record_of(#[trigger] entries[i]) == Some(records[i]@),
        decreases entries.len() - at,
    {
        match record_from_entry(&entries[at]) {
            Some(record) => {
                records.push(record);
            },
            None => {
                return Err(at);
            },
        }
        at += 1;
    }
    Ok(records)
}

} // verus!
