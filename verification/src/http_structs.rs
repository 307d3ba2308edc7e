//! The shapes of the documents that the indexers, the gateway and the
//! storage service answer with, as plain values.

use vstd::prelude::*;

verus! {

/// The `token_info` object of a big-map value: its one entry, under the
/// empty name, holds the hex-encoded pointer.
pub struct TokenMetadataBigMapInfo {
    pub value: String,
}

pub struct TokenMetadataBigMapValue {
    pub token_info: TokenMetadataBigMapInfo,
}

/// One key of the ledger's big map: the token id in decimal, and its value.
pub struct TokenMetadataBigMap {
    pub key: String,
    pub value: TokenMetadataBigMapValue,
}

/// The metadata document that a pointer resolves to.
pub struct TokenMetadata {
    pub artifact_uri: String,
}

pub struct TokenMetadataFile {
    pub data: String,
}

/// The big map's summary.
pub struct TokenKeys {
    pub active_keys: u64,
}

/// What the content service reports of an object.
pub struct FileStat {
    pub cumulative_size: u64,
}

/// The storage service's acknowledgement of a submission.
pub struct EstuaryUpload {
}

pub struct EstuaryContentContent {
    pub size: u64,
}

pub struct EstuaryContent {
    pub content: EstuaryContentContent,
}

pub struct EstuaryPinContent {
    pub size: u64,
}

/// One registration of an identifier with the storage service.
pub struct EstuaryPin {
    pub content: EstuaryPinContent,
}

/// One discovery record: the token's id and the reference to its content.
pub struct HicDexResponseDataTokens {
    pub artifact_uri: String,
    pub id: u64,
}

/// A discovery record, with its reference as a sequence of characters.
pub struct RecordModel {
    pub artifact_uri: Seq<char>,
    pub id: u64,
}

impl View for HicDexResponseDataTokens {
    type V = RecordModel;

    open spec fn view(&self) -> RecordModel {
        RecordModel { artifact_uri: self.artifact_uri@, id: self.id }
    }
}

impl DeepView for HicDexResponseDataTokens {
    type V = RecordModel;

    open spec fn deep_view(&self) -> RecordModel {
        self@
    }
}

pub struct HicDexResponseData {
    pub hic_et_nunc_token: Vec<HicDexResponseDataTokens>,
}

/// One page of discovery records.
pub struct HicDexResponse {
    pub data: HicDexResponseData,
}

pub struct HicDexResponsePkDataTokens {
    pub artifact_uri: String,
}

pub struct HicDexResponsePkData {
    pub hic_et_nunc_token_by_pk: HicDexResponsePkDataTokens,
}

/// The answer to a query for one token by its id.
pub struct HicDexResponsePk {
    pub data: HicDexResponsePkData,
}

pub struct HicDexAggregateDataAggregateCount {
    pub count: u64,
}

pub struct HicDexAggregateDataAggregate {
    pub aggregate: HicDexAggregateDataAggregateCount,
}

pub struct HicDexAggregateData {
    pub hic_et_nunc_token_aggregate: HicDexAggregateDataAggregate,
}

/// The answer to the query for the number of tokens.
pub struct HicDexAggregate {
    pub data: HicDexAggregateData,
}

impl TokenKeys {
    /// The number of tokens that the big map holds.
    pub fn count(&self) -> (count: u64)
        ensures
            count == self.active_keys,
    {
        self.active_keys
    }
}

impl HicDexAggregate {
    /// The number of tokens that the indexer knows.
    pub fn count(&self) -> (count: u64)
        ensures
            count == self.data.hic_et_nunc_token_aggregate.aggregate.count,
    {
        self.data.hic_et_nunc_token_aggregate.aggregate.count
    }
}

impl HicDexResponse {
    /// The records of the page, in the page's order.
    pub fn into_records(self) -> (records: Vec<HicDexResponseDataTokens>)
        ensures
            records == self.data.hic_et_nunc_token,
    {
        self.data.hic_et_nunc_token
    }
}

impl HicDexResponsePk {
    /// The discovery record of the token that was asked for by `id`.
    pub fn into_record(self, id: u64) -> (record: HicDexResponseDataTokens)
        ensures
            record.id == id,
            record.artifact_uri == self.data.hic_et_nunc_token_by_pk.artifact_uri,
    {
        HicDexResponseDataTokens { artifact_uri: self.data.hic_et_nunc_token_by_pk.artifact_uri, id }
    }
}

} // verus!
