//! What a run was asked to do.

use vstd::prelude::*;
use crate::batch::BatchModel;
use crate::coordinator::Coordinator;
use crate::identifier::IPFS_SCHEME;
use crate::pipeline::{Settings, SettingsModel};
use crate::service::Action;

verus! {

/// The discovery back-ends.
#[derive(Clone, Copy, Debug, PartialEq, Eq, Structural)]
pub enum OptIndexer {
    /// The indexer whose records carry the content reference itself.
    HicDex,
    /// The ledger's big map, whose records carry a pointer to a document
    /// that holds the reference.
    TzKT,
}

/// What sizes to add up.
#[derive(Clone, Copy, Debug, PartialEq, Eq, Structural)]
pub enum OptCmdSize {
    /// The sizes that the storage service has registered.
    Pins,
    /// The sizes of the contents themselves.
    Artefacts,
}

#[allow(inconsistent_fields)]
#[derive(Clone, Copy, Debug, PartialEq, Eq, Structural)]
pub enum OptCmd {
    /// Archive one token, or all of them.
    Backup { all: bool, token_id: Option<u64> },
    /// Say whether one token is registered with the storage service.
    Status { token_id: u64 },
    /// Add up the sizes of all tokens.
    Size { cmd: OptCmdSize },
}

/// The number of items worked on at once, unless told otherwise.
pub const DEFAULT_NUM_TASKS: usize = 1000;

/// The number of records asked for in one page.
pub const TZKT_CHUNCKS: usize = 10000;

pub struct Opt {
    pub indexer: OptIndexer,
    /// The most items to work on at once.
    pub num_tasks: usize,
    /// The storage service's credential.
    pub estuary_token: String,
    /// The time allowed to each request, in seconds; `None` for no limit.
    pub http_timeout: Option<u64>,
    pub cmd: OptCmd,
}

/// The shape of a run.
#[derive(Clone, Copy, Debug, PartialEq, Eq, Structural)]
pub enum RunPlan {
    /// Archive the one token of this id, without paging or limiting.
    BackupOne { token_id: u64 },
    /// Report on the one token of this id, without paging or limiting.
    StatusOne { token_id: u64 },
    /// Page through all tokens and do this to each.
    Batch { action: Action },
}

impl OptCmd {
    /// The run that this command asks for.
    ///
    /// A backup names a single token only where it gives an id and does not
    /// ask for all; every other backup, and every size, is a batch.
    pub open spec fn spec_plan(self) -> RunPlan {
        match self {
            OptCmd::Backup { all: false, token_id: Some(token_id) } => RunPlan::BackupOne {
                token_id,
            },
            OptCmd::Backup { .. } => RunPlan::Batch { action: Action::Archive },
            OptCmd::Status { token_id } => RunPlan::StatusOne { token_id },
            OptCmd::Size { cmd: OptCmdSize::Pins } => RunPlan::Batch {
                action: Action::MeasureStoredSize,
            },
            OptCmd::Size { cmd: OptCmdSize::Artefacts } => RunPlan::Batch {
                action: Action::MeasureSourceSize,
            },
        }
    }

    #[verifier::when_used_as_spec(spec_plan)]
    pub fn plan(self) -> (plan: RunPlan)
        ensures
            plan == self.spec_plan(),
    {
        match self {
            OptCmd::Backup { all: false, token_id: Some(token_id) } => RunPlan::BackupOne {
                token_id,
            },
            OptCmd::Backup { .. } => RunPlan::Batch { action: Action::Archive },
            OptCmd::Status { token_id } => RunPlan::StatusOne { token_id },
            OptCmd::Size { cmd: OptCmdSize::Pins } => RunPlan::Batch {
                action: Action::MeasureStoredSize,
            },
            OptCmd::Size { cmd: OptCmdSize::Artefacts } => RunPlan::Batch {
                action: Action::MeasureSourceSize,
            },
        }
    }
}

impl Opt {
    /// The batch that these options ask for, before its first page: over
    /// the chosen indexer, with `num_tasks` permits and pages of
    /// [`TZKT_CHUNCKS`] records. `None` where they ask for a single token.
    pub fn batch(&self) -> (batch: Option<Coordinator>)
        ensures
            match self.cmd.spec_plan() {
                RunPlan::Batch { action } => batch matches Some(fresh) && fresh@
                    == BatchModel::fresh(
                    SettingsModel { indexer: self.indexer, action, scheme: IPFS_SCHEME@ },
                    self.num_tasks as nat,
                    TZKT_CHUNCKS as nat,
                ),
                _ => batch is None,
            },
    {
        match self.cmd.plan() {
            RunPlan::Batch { action } => Some(
                Coordinator::new(Settings::new(self.indexer, action), self.num_tasks, TZKT_CHUNCKS),
            ),
            _ => None,
        }
    }
}

} // verus!
