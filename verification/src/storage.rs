//! Reading what the storage service answers to a lookup, and what an
//! archive does to the service.

use vstd::prelude::*;
use crate::http_structs::EstuaryPin;
use crate::pipeline::{PipelineModel, SettingsModel};
use crate::service::{Action, ReplyModel, ServiceReply};

verus! {

/// The status with which the storage service says that it does not know an
/// identifier.
pub const NOT_FOUND: u16 = 404;

/// The body with which the storage service says that it has no registration
/// of an identifier.
pub const NO_REGISTRATION: &'static str = "null\n";

/// What came back from a lookup, before it is read.
#[derive(Debug, PartialEq, Eq)]
pub enum LookupResponse {
    /// An error status, where one came with the failure.
    Refused { status: Option<u16> },
    /// Any other status, with the text of the body.
    Answered { body: String },
}

/// What a lookup's response means.
#[derive(Clone, Copy, Debug, PartialEq, Eq, Structural)]
pub enum LookupReading {
    /// The identifier is not registered: the branch on which an archive
    /// submits it, and no error.
    NotRegistered,
    /// The body holds the identifier's registrations, still to be decoded.
    Registrations,
    /// The lookup failed.
    Failed,
}

impl LookupResponse {
    /// What this response means: "not found" and a body without a
    /// registration both say that the identifier is not registered; any
    /// other error status is a failure.
    pub open spec fn reading(self) -> LookupReading {
        match self {
            LookupResponse::Refused { status } => if status == Some(NOT_FOUND) {
                LookupReading::NotRegistered
            } else {
                LookupReading::Failed
            },
            LookupResponse::Answered { body } => if body@ == NO_REGISTRATION@ {
                LookupReading::NotRegistered
            } else {
                LookupReading::Registrations
            },
        }
    }

    /// Reads this response.
    pub fn read(&self) -> (reading: LookupReading)
        ensures
            reading == self.reading(),
    {
        match self {
            LookupResponse::Refused { status } => match status {
                Some(code) => if *code == NOT_FOUND {
                    LookupReading::NotRegistered
                } else {
                    LookupReading::Failed
                },
                None => LookupReading::Failed,
            },
            LookupResponse::Answered { body } => {
                let nothing = String::from_str(NO_REGISTRATION);
                if *body == nothing {
                    LookupReading::NotRegistered
                } else {
                    LookupReading::Registrations
                }
            },
        }
    }
}

/// The answer that a reading gives to a lookup without a look at the body:
/// that of an identifier that is not registered. A failure gives none, nor
/// do registrations, which are still to be decoded.
pub fn reply_from_reading(reading: LookupReading) -> (reply: Option<ServiceReply>)
    ensures
        reading == LookupReading::NotRegistered ==> reply.deep_view() == Some(
            ReplyModel::Registered(None),
        ),
        reading != LookupReading::NotRegistered ==> reply is None,
{
    match reading {
        LookupReading::NotRegistered => Some(ServiceReply::Registered(None)),
        _ => None,
    }
}

/// The answer that a decoded list of registrations gives to a lookup: the
/// size of the first. A list without entries says that the identifier is
/// not registered, which is no failure.
pub fn reply_from_registrations(pins: &Vec<EstuaryPin>) -> (reply: ServiceReply)
    ensures
        pins.len() > 0 ==> reply@ == ReplyModel::Registered(Some(pins[0].content.size)),
        pins.len() == 0 ==> reply@ == ReplyModel::Registered(None),
{
    if pins.len() > 0 {
        ServiceReply::Registered(Some(pins[0].content.size))
    } else {
        ServiceReply::Registered(None)
    }
}

/// What the storage service answers to a lookup of `identifier` when it
/// holds the registrations of `registry`.
pub open spec fn lookup(registry: Map<Seq<char>, u64>, identifier: Seq<char>) -> ReplyModel {
    ReplyModel::Registered(
        if registry.dom().contains(identifier) {
            Some(registry[identifier])
        } else {
            None
        },
    )
}

/// What an archive of `item`, which awaits its lookup, does to a storage
/// service that holds `registry`: the registrations afterwards, and the
/// number of submissions made. A submission registers the identifier with
/// `size`.
pub open spec fn archive(
    registry: Map<Seq<char>, u64>,
    item: PipelineModel,
    settings: SettingsModel,
    size: u64,
) -> (Map<Seq<char>, u64>, nat) {
    match item.on_reply(lookup(registry, item.identifier), settings).1 {
        Some(call) => (registry.insert(call.subject, size), 1),
        None => (registry, 0),
    }
}

/// Two archives of one identifier submit it once if it was not registered,
/// and not at all if it was: the second finds what the first has
/// registered, and changes nothing.
pub proof fn lemma_archive_is_idempotent(
    registry: Map<Seq<char>, u64>,
    first: PipelineModel,
    second: PipelineModel,
    settings: SettingsModel,
    first_size: u64,
    second_size: u64,
)
    requires
        settings.action is Archive,
        first.identifier == second.identifier,
    ensures
        ({
            let once = archive(registry, first, settings, first_size);
            let twice = archive(once.0, second, settings, second_size);
            &&& once.1 == if registry.dom().contains(first.identifier) {
                0nat
            } else {
                1nat
            }
            &&& twice.1 == 0
            &&& twice.0 == once.0
        }),
{
}

} // verus!
