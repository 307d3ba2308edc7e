//! The life of one item: resolve its identifier, do the batch's action on
//! it, and end with a result, whatever goes wrong on the way.

use vstd::prelude::*;
use crate::http_structs::{HicDexResponseDataTokens, RecordModel};
use crate::identifier::{strip_scheme, without_scheme, IPFS_SCHEME};
use crate::ledger::{decode_pointer, pointer_of};
use crate::options::OptIndexer;
use crate::service::{Action, CallKind, CallModel, ReplyModel, ServiceCall, ServiceReply};

verus! {

/// Where an item stands.
///
/// `LookingUp`, `Submitting` and `Measuring` are the three forms of
/// dispatching: each names the call whose answer is awaited.
#[derive(Clone, Copy, Debug, PartialEq, Eq, Structural)]
pub enum Stage {
    /// Waiting for a permit.
    Pending,
    /// Waiting for the document that its pointer names.
    Resolving,
    LookingUp,
    Submitting,
    Measuring,
    Done,
}

impl Stage {
    /// Whether an item at this stage holds a permit.
    pub open spec fn in_flight(self) -> bool {
        self != Stage::Pending && self != Stage::Done
    }

    /// The call whose answer an item at this stage awaits.
    pub open spec fn awaited(self) -> Option<CallKind> {
        match self {
            Stage::Pending => None,
            Stage::Resolving => Some(CallKind::Resolve),
            Stage::LookingUp => Some(CallKind::Lookup),
            Stage::Submitting => Some(CallKind::Submit),
            Stage::Measuring => Some(CallKind::Measure),
            Stage::Done => None,
        }
    }
}

/// What is the same for every item of a batch.
pub struct Settings {
    pub indexer: OptIndexer,
    pub action: Action,
    /// The scheme that references carry and identifiers do not.
    pub scheme: String,
}

pub struct SettingsModel {
    pub indexer: OptIndexer,
    pub action: Action,
    pub scheme: Seq<char>,
}

impl View for Settings {
    type V = SettingsModel;

    open spec fn view(&self) -> SettingsModel {
        SettingsModel { indexer: self.indexer, action: self.action, scheme: self.scheme@ }
    }
}

impl Settings {
    /// The settings of a batch over references with the usual scheme.
    pub fn new(indexer: OptIndexer, action: Action) -> (settings: Self)
        ensures
            settings@ == (SettingsModel { indexer, action, scheme: IPFS_SCHEME@ }),
    {
        Settings { indexer, action, scheme: String::from_str(IPFS_SCHEME) }
    }
}

/// How an item ended.
#[derive(Debug, PartialEq, Eq)]
pub enum PipelineResult {
    /// It went through, and added `contributed` bytes to the total.
    Success { contributed: u64 },
    /// Its identifier could not be resolved.
    ResolutionError { reason: String },
    /// The action on its identifier failed.
    DispatchError { reason: String },
}

pub enum ResultModel {
    Success { contributed: u64 },
    ResolutionError { reason: Seq<char> },
    DispatchError { reason: Seq<char> },
}

impl View for PipelineResult {
    type V = ResultModel;

    open spec fn view(&self) -> ResultModel {
        match self {
            PipelineResult::Success { contributed } => ResultModel::Success {
                contributed: *contributed,
            },
            PipelineResult::ResolutionError { reason } => ResultModel::ResolutionError {
                reason: reason@,
            },
            PipelineResult::DispatchError { reason } => ResultModel::DispatchError {
                reason: reason@,
            },
        }
    }
}

impl Clone for PipelineResult {
    fn clone(&self) -> (copy: Self)
        ensures
            copy@ == self@,
    {
        match self {
            PipelineResult::Success { contributed } => PipelineResult::Success {
                contributed: *contributed,
            },
            PipelineResult::ResolutionError { reason } => PipelineResult::ResolutionError {
                reason: reason.clone(),
            },
            PipelineResult::DispatchError { reason } => PipelineResult::DispatchError {
                reason: reason.clone(),
            },
        }
    }
}

impl DeepView for PipelineResult {
    type V = ResultModel;

    open spec fn deep_view(&self) -> ResultModel {
        self@
    }
}

impl ResultModel {
    /// The bytes that an item with this result added to the total: what it
    /// measured if it went through, and nothing if it failed.
    pub open spec fn contributed(self) -> nat {
        match self {
            ResultModel::Success { contributed } => contributed as nat,
            _ => 0,
        }
    }
}

/// How one item ended.
#[derive(Debug, PartialEq, Eq)]
pub struct PipelineOutcome {
    pub item_id: u64,
    pub result: PipelineResult,
}

/// How one item ended, as the values it stands for.
pub struct OutcomeModel {
    pub item_id: u64,
    pub result: ResultModel,
}

impl View for PipelineOutcome {
    type V = OutcomeModel;

    open spec fn view(&self) -> OutcomeModel {
        OutcomeModel { item_id: self.item_id, result: self.result@ }
    }
}

impl DeepView for PipelineOutcome {
    type V = OutcomeModel;

    open spec fn deep_view(&self) -> OutcomeModel {
        self@
    }
}

/// An item's pipeline, as the values it stands for.
pub struct PipelineModel {
    pub item_id: u64,
    /// The reference that the discovery gave.
    pub reference: Seq<char>,
    /// The canonical identifier; empty until it is resolved.
    pub identifier: Seq<char>,
    pub stage: Stage,
    pub result: Option<ResultModel>,
}

impl PipelineModel {
    /// The pipeline of a record that has just been discovered.
    pub open spec fn pending(record: RecordModel) -> PipelineModel {
        PipelineModel {
            item_id: record.id,
            reference: record.artifact_uri,
            identifier: Seq::empty(),
            stage: Stage::Pending,
            result: None,
        }
    }

    /// A result is there exactly when the pipeline is done.
    pub open spec fn wf(self) -> bool {
        self.stage is Done <==> self.result is Some
    }

    /// The bytes that this item has added to the total.
    pub open spec fn contributed(self) -> nat {
        match self.result {
            Some(result) => result.contributed(),
            None => 0,
        }
    }

    /// How the item ended, once it is done.
    pub open spec fn outcome(self) -> Option<OutcomeModel> {
        match self.result {
            Some(result) => Some(OutcomeModel { item_id: self.item_id, result }),
            None => None,
        }
    }

    /// Whether `reply` answers the call that this pipeline awaits.
    pub open spec fn awaits(self, reply: ReplyModel) -> bool {
        match self.stage.awaited() {
            Some(kind) => reply.answers(kind),
            None => false,
        }
    }

    /// This pipeline, done with `result`.
    pub open spec fn finished(self, result: ResultModel) -> PipelineModel {
        PipelineModel { stage: Stage::Done, result: Some(result), ..self }
    }

    /// This pipeline, awaiting the answer to a call of `kind`.
    pub open spec fn awaiting(self, kind: CallKind) -> PipelineModel {
        PipelineModel {
            stage: match kind {
                CallKind::Resolve => Stage::Resolving,
                CallKind::Lookup => Stage::LookingUp,
                CallKind::Submit => Stage::Submitting,
                CallKind::Measure => Stage::Measuring,
            },
            ..self
        }
    }

    /// The step from a resolved identifier to the first call of the action.
    ///
    /// An empty identifier is skipped: the item is done, with nothing
    /// contributed and no call made.
    pub open spec fn dispatch(self, identifier: Seq<char>, action: Action) -> (
        PipelineModel,
        Option<CallModel>,
    ) {
        let resolved = PipelineModel { identifier, ..self };
        if identifier.len() == 0 {
            (resolved.finished(ResultModel::Success { contributed: 0 }), None)
        } else {
            let kind = match action {
                Action::Archive => CallKind::Lookup,
                Action::MeasureStoredSize => CallKind::Lookup,
                Action::MeasureSourceSize => CallKind::Measure,
            };
            (resolved.awaiting(kind), Some(CallModel { kind, subject: identifier }))
        }
    }

    /// The step that a pending pipeline takes once it has a permit.
    ///
    /// A record of the big map holds a pointer in hex. Where that cannot be
    /// decoded, the item has failed; else the document that the pointer
    /// names has to be fetched. Any other record holds the reference
    /// itself.
    pub open spec fn start(self, settings: SettingsModel) -> (PipelineModel, Option<CallModel>) {
        match settings.indexer {
            OptIndexer::TzKT => match pointer_of(self.reference) {
                Ok(pointer) => (
                    self.awaiting(CallKind::Resolve),
                    Some(
                        CallModel {
                            kind: CallKind::Resolve,
                            subject: without_scheme(pointer, settings.scheme),
                        },
                    ),
                ),
                Err(fault) => (
                    self.finished(ResultModel::ResolutionError { reason: fault.spec_reason()@ }),
                    None,
                ),
            },
            OptIndexer::HicDex => self.dispatch(
                without_scheme(self.reference, settings.scheme),
                settings.action,
            ),
        }
    }

    /// The step that a pipeline takes on the answer to the call it awaits.
    pub open spec fn on_reply(self, reply: ReplyModel, settings: SettingsModel) -> (
        PipelineModel,
        Option<CallModel>,
    ) {
        match reply {
            ReplyModel::Failed(reason) => if self.stage is Resolving {
                (self.finished(ResultModel::ResolutionError { reason }), None)
            } else {
                (self.finished(ResultModel::DispatchError { reason }), None)
            },
            ReplyModel::Resolved(reference) => self.dispatch(
                without_scheme(reference, settings.scheme),
                settings.action,
            ),
            ReplyModel::Registered(found) => match (settings.action, found) {
                (Action::Archive, None) => (
                    self.awaiting(CallKind::Submit),
                    Some(CallModel { kind: CallKind::Submit, subject: self.identifier }),
                ),
                (Action::Archive, Some(_)) => (
                    self.finished(ResultModel::Success { contributed: 0 }),
                    None,
                ),
                (_, Some(size)) => (
                    self.finished(ResultModel::Success { contributed: size }),
                    None,
                ),
                (_, None) => (self.finished(ResultModel::Success { contributed: 0 }), None),
            },
            ReplyModel::Submitted => (
                self.finished(ResultModel::Success { contributed: 0 }),
                None,
            ),
            ReplyModel::Measured(bytes) => (
                self.finished(ResultModel::Success { contributed: bytes }),
                None,
            ),
        }
    }
}

/// A pending pipeline that gets its permit either awaits a call, or is done
/// at once, with nothing contributed: it is well-formed either way.
pub proof fn lemma_start_keeps_wf(pipeline: PipelineModel, settings: SettingsModel)
    requires
        pipeline.wf(),
        pipeline.stage is Pending,
    ensures
        pipeline.start(settings).0.wf(),
        pipeline.start(settings).1 is Some <==> pipeline.start(settings).0.stage.in_flight(),
        pipeline.start(settings).1 is None <==> pipeline.start(settings).0.stage is Done,
        pipeline.start(settings).0.contributed() == 0,
{
}

/// A pipeline that takes the answer it awaits either awaits its next call,
/// or is done: it is well-formed either way.
pub proof fn lemma_reply_keeps_wf(pipeline: PipelineModel, reply: ReplyModel, settings: SettingsModel)
    requires
        pipeline.wf(),
        pipeline.awaits(reply),
    ensures
        pipeline.stage.in_flight(),
        pipeline.on_reply(reply, settings).0.wf(),
        pipeline.on_reply(reply, settings).1 is Some <==> pipeline.on_reply(
            reply,
            settings,
        ).0.stage.in_flight(),
        pipeline.on_reply(reply, settings).1 is None <==> pipeline.on_reply(
            reply,
            settings,
        ).0.stage is Done,
        pipeline.on_reply(reply, settings).1 is Some ==> pipeline.on_reply(
            reply,
            settings,
        ).0.contributed() == 0,
{
}

/// The pipeline of one item.
pub struct ItemPipeline {
    item_id: u64,
    reference: String,
    identifier: String,
    stage: Stage,
    result: Option<PipelineResult>,
}

impl View for ItemPipeline {
    type V = PipelineModel;

    closed spec fn view(&self) -> PipelineModel {
        PipelineModel {
            item_id: self.item_id,
            reference: self.reference@,
            identifier: self.identifier@,
            stage: self.stage,
            result: self.result.deep_view(),
        }
    }
}

impl DeepView for ItemPipeline {
    type V = PipelineModel;

    open spec fn deep_view(&self) -> PipelineModel {
        self@
    }
}

fn make_call(kind: CallKind, subject: &String) -> (call: ServiceCall)
    ensures
        call@ == (CallModel { kind, subject: subject@ }),
{
    ServiceCall { kind, subject: subject.clone() }
}

impl ItemPipeline {
    /// The pipeline of a record that has just been discovered.
    pub fn new(record: &HicDexResponseDataTokens) -> (pipeline: Self)
        ensures
            pipeline@ == PipelineModel::pending(record@),
            pipeline@.wf(),
    {
        ItemPipeline {
            item_id: record.id,
            reference: record.artifact_uri.clone(),
            identifier: String::new(),
            stage: Stage::Pending,
            result: None,
        }
    }

    pub fn item_id(&self) -> (item_id: u64)
        ensures
            item_id == self@.item_id,
    {
        self.item_id
    }

    pub fn stage(&self) -> (stage: Stage)
        ensures
            stage == self@.stage,
    {
        self.stage
    }

    /// The canonical identifier, empty until it is resolved.
    pub fn identifier(&self) -> (identifier: &str)
        ensures
            identifier@ == self@.identifier,
    {
        self.identifier.as_str()
    }

    /// How the item ended, once it is done.
    pub fn result(&self) -> (result: &Option<PipelineResult>)
        ensures
            result.deep_view() == self@.result,
    {
        &self.result
    }

    /// The bytes that the item has added to the total.
    pub fn contributed(&self) -> (bytes: u64)
        ensures
            bytes == self@.contributed(),
    {
        match &self.result {
            Some(PipelineResult::Success { contributed }) => *contributed,
            _ => 0,
        }
    }

    /// The bytes that the item would add to the total on `reply`.
    pub fn gain(&self, reply: &ServiceReply, settings: &Settings) -> (bytes: u64)
        requires
            self@.wf(),
            self@.awaits(reply@),
        ensures
            bytes == self@.on_reply(reply@, settings@).0.contributed(),
    {
        match reply {
            ServiceReply::Measured(bytes) => *bytes,
            ServiceReply::Registered(Some(size)) => match settings.action {
                Action::Archive => 0,
                _ => *size,
            },
            _ => 0,
        }
    }

    /// How the item ended, if it is done.
    pub fn outcome(&self) -> (outcome: Option<PipelineOutcome>)
        ensures
            outcome.deep_view() == self@.outcome(),
    {
        match &self.result {
            Some(result) => Some(PipelineOutcome { item_id: self.item_id, result: result.clone() }),
            None => None,
        }
    }

    /// Whether the item holds a permit.
    pub fn is_in_flight(&self) -> (in_flight: bool)
        ensures
            in_flight == self@.stage.in_flight(),
    {
        match self.stage {
            Stage::Pending => false,
            Stage::Done => false,
            _ => true,
        }
    }

    /// Whether `reply` answers the call that this pipeline awaits.
    pub fn awaits(&self, reply: &ServiceReply) -> (awaited: bool)
        ensures
            awaited == self@.awaits(reply@),
    {
        match self.stage {
            Stage::Pending => false,
            Stage::Resolving => reply.answers(CallKind::Resolve),
            Stage::LookingUp => reply.answers(CallKind::Lookup),
            Stage::Submitting => reply.answers(CallKind::Submit),
            Stage::Measuring => reply.answers(CallKind::Measure),
            Stage::Done => false,
        }
    }

    fn finish(&mut self, result: PipelineResult)
        ensures
            final(self)@ == old(self)@.finished(result@),
    {
        self.stage = Stage::Done;
        self.result = Some(result);
    }

    fn await_call(&mut self, kind: CallKind, subject: &String) -> (call: ServiceCall)
        ensures
            final(self)@ == old(self)@.awaiting(kind),
            call@ == (CallModel { kind, subject: subject@ }),
    {
        self.stage = match kind {
            CallKind::Resolve => Stage::Resolving,
            CallKind::Lookup => Stage::LookingUp,
            CallKind::Submit => Stage::Submitting,
            CallKind::Measure => Stage::Measuring,
        };
        make_call(kind, subject)
    }

    fn dispatch(&mut self, identifier: String, action: Action) -> (call: Option<ServiceCall>)
        ensures
            final(self)@ == old(self)@.dispatch(identifier@, action).0,
            call.deep_view() == old(self)@.dispatch(identifier@, action).1,
    {
        let skipped = identifier.as_str().is_empty();
        self.identifier = identifier;
        if skipped {
            self.finish(PipelineResult::Success { contributed: 0 });
            None
        } else {
            let kind = match action {
                Action::Archive => CallKind::Lookup,
                Action::MeasureStoredSize => CallKind::Lookup,
                Action::MeasureSourceSize => CallKind::Measure,
            };
            let subject = self.identifier.clone();
            Some(self.await_call(kind, &subject))
        }
    }

    /// Takes the step that a permit allows, and returns the call to make,
    /// if the item needs one.
    pub fn start(&mut self, settings: &Settings) -> (call: Option<ServiceCall>)
        requires
            old(self)@.stage is Pending,
        ensures
            final(self)@ == old(self)@.start(settings@).0,
            call.deep_view() == old(self)@.start(settings@).1,
            old(self)@.wf() ==> final(self)@.wf(),
    {
        proof {
            if old(self)@.wf() {
                lemma_start_keeps_wf(old(self)@, settings@);
            }
        }
        match settings.indexer {
            OptIndexer::TzKT => match decode_pointer(self.reference.as_str()) {
                Ok(pointer) => {
                    let subject = strip_scheme(pointer.as_str(), settings.scheme.as_str());
                    Some(self.await_call(CallKind::Resolve, &subject))
                },
                Err(fault) => {
                    self.finish(
                        PipelineResult::ResolutionError { reason: String::from_str(fault.reason()) },
                    );
                    None
                },
            },
            OptIndexer::HicDex => {
                let identifier = strip_scheme(self.reference.as_str(), settings.scheme.as_str());
                self.dispatch(identifier, settings.action)
            },
        }
    }

    /// Takes the step that `reply` allows, and returns the next call to
    /// make, if the item needs one.
    pub fn on_reply(&mut self, reply: ServiceReply, settings: &Settings) -> (call: Option<
        ServiceCall,
    >)
        requires
            old(self)@.awaits(reply@),
        ensures
            final(self)@ == old(self)@.on_reply(reply@, settings@).0,
            call.deep_view() == old(self)@.on_reply(reply@, settings@).1,
            old(self)@.wf() ==> final(self)@.wf(),
    {
        proof {
            if old(self)@.wf() {
                lemma_reply_keeps_wf(old(self)@, reply@, settings@);
            }
        }
        match reply {
            ServiceReply::Failed(reason) => {
                match self.stage {
                    Stage::Resolving => self.finish(PipelineResult::ResolutionError { reason }),
                    _ => self.finish(PipelineResult::DispatchError { reason }),
                }
                None
            },
            ServiceReply::Resolved(reference) => {
                let identifier = strip_scheme(reference.as_str(), settings.scheme.as_str());
                self.dispatch(identifier, settings.action)
            },
            ServiceReply::Registered(found) => match (settings.action, found) {
                (Action::Archive, None) => {
                    let subject = self.identifier.clone();
                    Some(self.await_call(CallKind::Submit, &subject))
                },
                (Action::Archive, Some(_)) => {
                    self.finish(PipelineResult::Success { contributed: 0 });
                    None
                },
                (_, Some(size)) => {
                    self.finish(PipelineResult::Success { contributed: size });
                    None
                },
                (_, None) => {
                    self.finish(PipelineResult::Success { contributed: 0 });
                    None
                },
            },
            ServiceReply::Submitted => {
                self.finish(PipelineResult::Success { contributed: 0 });
                None
            },
            ServiceReply::Measured(bytes) => {
                self.finish(PipelineResult::Success { contributed: bytes });
                None
            },
        }
    }
}

} // verus!
