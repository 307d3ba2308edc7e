//! What a pipeline asks of the services around it, and what they answer.
//!
//! Nothing here performs a call: a [`ServiceCall`] says what the driver is
//! to ask, and a [`ServiceReply`] is what it reports back.

use vstd::prelude::*;
use crate::http_structs::{EstuaryUpload, FileStat, TokenMetadata};

verus! {

/// What is done with each identifier.
#[derive(Clone, Copy, Debug, PartialEq, Eq, Structural)]
pub enum Action {
    /// Register the identifier with the storage service unless it already
    /// is.
    Archive,
    /// Read the size that the storage service has registered.
    MeasureStoredSize,
    /// Read the size of the content itself.
    MeasureSourceSize,
}

/// The services' operations.
#[derive(Clone, Copy, Debug, PartialEq, Eq, Structural)]
pub enum CallKind {
    /// Content resolution: fetch the document that a pointer names.
    Resolve,
    /// Storage: look an identifier up.
    Lookup,
    /// Storage: submit an identifier.
    Submit,
    /// Content resolution: the size of an identifier's content.
    Measure,
}

/// One call that the driver is to make: the operation and the pointer or
/// identifier that it is about.
#[derive(Debug, PartialEq, Eq)]
pub struct ServiceCall {
    pub kind: CallKind,
    pub subject: String,
}

/// A call, with its subject as a sequence of characters.
pub struct CallModel {
    pub kind: CallKind,
    pub subject: Seq<char>,
}

impl View for ServiceCall {
    type V = CallModel;

    open spec fn view(&self) -> CallModel {
        CallModel { kind: self.kind, subject: self.subject@ }
    }
}

impl DeepView for ServiceCall {
    type V = CallModel;

    open spec fn deep_view(&self) -> CallModel {
        self@
    }
}

/// The answer to a call.
#[derive(Debug, PartialEq, Eq)]
pub enum ServiceReply {
    /// To `Resolve`: the reference that the document holds.
    Resolved(String),
    /// To `Lookup`: the registered size, or `None` where the identifier is
    /// not registered.
    Registered(Option<u64>),
    /// To `Submit`: acknowledged.
    Submitted,
    /// To `Measure`: the size in bytes.
    Measured(u64),
    /// To any call: it failed, for this reason.
    Failed(String),
}

pub enum ReplyModel {
    Resolved(Seq<char>),
    Registered(Option<u64>),
    Submitted,
    Measured(u64),
    Failed(Seq<char>),
}

impl View for ServiceReply {
    type V = ReplyModel;

    open spec fn view(&self) -> ReplyModel {
        match self {
            ServiceReply::Resolved(reference) => ReplyModel::Resolved(reference@),
            ServiceReply::Registered(found) => ReplyModel::Registered(*found),
            ServiceReply::Submitted => ReplyModel::Submitted,
            ServiceReply::Measured(bytes) => ReplyModel::Measured(*bytes),
            ServiceReply::Failed(reason) => ReplyModel::Failed(reason@),
        }
    }
}

impl DeepView for ServiceReply {
    type V = ReplyModel;

    open spec fn deep_view(&self) -> ReplyModel {
        self@
    }
}

impl ReplyModel {
    /// Whether this reply can answer a call of `kind`.
    pub open spec fn answers(self, kind: CallKind) -> bool {
        match self {
            ReplyModel::Resolved(_) => kind == CallKind::Resolve,
            ReplyModel::Registered(_) => kind == CallKind::Lookup,
            ReplyModel::Submitted => kind == CallKind::Submit,
            ReplyModel::Measured(_) => kind == CallKind::Measure,
            ReplyModel::Failed(_) => true,
        }
    }
}

impl ServiceReply {
    /// The answer that the document of a pointer gives to `Resolve`: the
    /// reference it holds.
    pub fn from_metadata(document: TokenMetadata) -> (reply: Self)
        ensures
            reply@ == ReplyModel::Resolved(document.artifact_uri@),
    {
        ServiceReply::Resolved(document.artifact_uri)
    }

    /// The answer that the content service's report gives to `Measure`: the
    /// size of the content with all that it links to.
    pub fn from_stat(stat: &FileStat) -> (reply: Self)
        ensures
            reply@ == ReplyModel::Measured(stat.cumulative_size),
    {
        ServiceReply::Measured(stat.cumulative_size)
    }

    /// The answer that the storage service's acknowledgement gives to
    /// `Submit`.
    pub fn from_upload(acknowledgement: &EstuaryUpload) -> (reply: Self)
        ensures
            reply@ == ReplyModel::Submitted,
    {
        ServiceReply::Submitted
    }

    /// Whether this reply can answer a call of `kind`.
    pub fn answers(&self, kind: CallKind) -> (fitting: bool)
        ensures
            fitting == self@.answers(kind),
    {
        match self {
            ServiceReply::Resolved(_) => kind == CallKind::Resolve,
            ServiceReply::Registered(_) => kind == CallKind::Lookup,
            ServiceReply::Submitted => kind == CallKind::Submit,
            ServiceReply::Measured(_) => kind == CallKind::Measure,
            ServiceReply::Failed(_) => true,
        }
    }
}

} // verus!
