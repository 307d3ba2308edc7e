//! The batch as a mathematical state machine: what each event does to the
//! items, the permits and the total, and what holds in every state it can
//! reach.

use vstd::prelude::*;
use crate::cursor::CursorState;
use crate::http_structs::RecordModel;
use crate::pipeline::{
    lemma_reply_keeps_wf, lemma_start_keeps_wf, PipelineModel, ResultModel, SettingsModel,
};
use crate::service::{CallModel, ReplyModel};

verus! {

/// A call to make for one item of the batch, named by its position in the
/// order of discovery.
pub struct ItemCallModel {
    pub item: int,
    pub call: CallModel,
}

/// Counts over the items of a batch.
pub struct Census {
    /// Items that hold a permit.
    pub in_flight: nat,
    /// Items that are done.
    pub done: nat,
    /// The bytes that the items have contributed.
    pub contributed: nat,
}

impl Census {
    pub open spec fn zero() -> Census {
        Census { in_flight: 0, done: 0, contributed: 0 }
    }

    pub open spec fn of(pipeline: PipelineModel) -> Census {
        Census {
            in_flight: if pipeline.stage.in_flight() {
                1
            } else {
                0
            },
            done: if pipeline.stage is Done {
                1
            } else {
                0
            },
            contributed: pipeline.contributed(),
        }
    }

    pub open spec fn plus(self, other: Census) -> Census {
        Census {
            in_flight: self.in_flight + other.in_flight,
            done: self.done + other.done,
            contributed: self.contributed + other.contributed,
        }
    }
}

/// The counts over `pipelines`.
pub open spec fn census(pipelines: Seq<PipelineModel>) -> Census
    decreases pipelines.len(),
{
    if pipelines.len() == 0 {
        Census::zero()
    } else {
        census(pipelines.drop_last()).plus(Census::of(pipelines.last()))
    }
}

/// The pipelines of a page of records, all pending.
pub open spec fn pending_all(records: Seq<RecordModel>) -> Seq<PipelineModel> {
    Seq::new(records.len(), |i: int| PipelineModel::pending(records[i]))
}

/// A batch, as the values it stands for.
pub struct BatchModel {
    pub settings: SettingsModel,
    /// The most permits that may be out at once.
    pub capacity: nat,
    /// The permits that are out.
    pub outstanding: nat,
    /// The aggregate counter.
    pub total: nat,
    pub cursor: CursorState,
    /// One pipeline per record, in the order of discovery.
    pub pipelines: Seq<PipelineModel>,
    /// How many pipelines have been given a permit so far; they are the
    /// first so many.
    pub started: nat,
    /// How many pipelines are done: the progress of the batch.
    pub finished: nat,
    /// The reason for which the discovery failed, if it did.
    pub aborted: Option<Seq<char>>,
}

impl BatchModel {
    /// The batch before any page.
    pub open spec fn fresh(settings: SettingsModel, capacity: nat, page_size: nat) -> BatchModel {
        BatchModel {
            settings,
            capacity,
            outstanding: 0,
            total: 0,
            cursor: CursorState::start(page_size),
            pipelines: Seq::empty(),
            started: 0,
            finished: 0,
            aborted: None,
        }
    }

    /// What holds of a batch at every moment, also in the middle of an
    /// event: no more permits are out than the capacity allows, and they are
    /// held by exactly the items in flight; the total is the sum of what the
    /// items contributed; permits are given in the order of discovery.
    pub open spec fn consistent(self) -> bool {
        &&& self.outstanding <= self.capacity
        &&& self.started <= self.pipelines.len()
        &&& self.cursor.offset == self.pipelines.len()
        &&& self.finished + self.outstanding == self.started
        &&& census(self.pipelines).in_flight == self.outstanding
        &&& census(self.pipelines).done == self.finished
        &&& census(self.pipelines).contributed == self.total
        &&& forall|i: int|
            0 <= i < self.pipelines.len() ==> {
                &&& (#[trigger] self.pipelines[i]).wf()
                &&& self.pipelines[i].stage is Pending <==> i >= self.started
            }
    }

    /// Whether a pipeline waits and a permit is free.
    pub open spec fn can_start_next(self) -> bool {
        self.started < self.pipelines.len() && self.outstanding < self.capacity
    }

    /// What holds of a batch between events: it is consistent, and no
    /// pipeline waits while a permit is free.
    pub open spec fn wf(self) -> bool {
        self.consistent() && !self.can_start_next()
    }

    /// Gives a permit to the pipeline that has waited longest. It either
    /// keeps the permit for the call it now awaits, or is done at once and
    /// gives the permit back.
    pub open spec fn start_next(self) -> (BatchModel, Option<ItemCallModel>) {
        let item = self.started as int;
        let begun = self.pipelines[item].start(self.settings);
        match begun.1 {
            Some(call) => (
                BatchModel {
                    pipelines: self.pipelines.update(item, begun.0),
                    started: self.started + 1,
                    outstanding: self.outstanding + 1,
                    ..self
                },
                Some(ItemCallModel { item, call }),
            ),
            None => (
                BatchModel {
                    pipelines: self.pipelines.update(item, begun.0),
                    started: self.started + 1,
                    finished: self.finished + 1,
                    ..self
                },
                None,
            ),
        }
    }

    /// Gives permits to waiting pipelines, in their order, for as long as a
    /// permit is free; returns the calls to make for them.
    pub open spec fn start_waiting(self) -> (BatchModel, Seq<ItemCallModel>)
        decreases self.pipelines.len() - self.started,
    {
        if self.can_start_next() {
            let first = self.start_next();
            let rest = first.0.start_waiting();
            (
                rest.0,
                match first.1 {
                    Some(call) => seq![call] + rest.1,
                    None => rest.1,
                },
            )
        } else {
            (self, Seq::empty())
        }
    }

    /// This batch with a pending pipeline for each record of a page, and
    /// the cursor moved past the page.
    pub open spec fn with_page(self, records: Seq<RecordModel>) -> BatchModel {
        BatchModel {
            pipelines: self.pipelines + pending_all(records),
            cursor: self.cursor.after_page(records.len()),
            ..self
        }
    }

    /// A page of records has come: each record gets a pipeline, the cursor
    /// moves on, and as many pipelines start as permits are free.
    pub open spec fn on_page(self, records: Seq<RecordModel>) -> (BatchModel, Seq<ItemCallModel>) {
        self.with_page(records).start_waiting()
    }

    /// The discovery has failed: no further page is asked for.
    pub open spec fn on_page_failed(self, reason: Seq<char>) -> BatchModel {
        BatchModel { aborted: Some(reason), ..self }
    }

    /// The bytes that `reply` makes `item` contribute.
    pub open spec fn gain(self, item: int, reply: ReplyModel) -> nat {
        self.pipelines[item].on_reply(reply, self.settings).0.contributed()
    }

    /// Whether `reply` can be handed in for `item`: the item awaits it.
    pub open spec fn accepts(self, item: int, reply: ReplyModel) -> bool {
        0 <= item < self.pipelines.len() && self.pipelines[item].awaits(reply)
    }

    /// This batch with `item` done as `done` says: its bytes are in the
    /// total, and its permit is free.
    pub open spec fn with_done(self, item: int, done: PipelineModel) -> BatchModel {
        BatchModel {
            pipelines: self.pipelines.update(item, done),
            outstanding: (self.outstanding - 1) as nat,
            finished: self.finished + 1,
            total: self.total + done.contributed(),
            ..self
        }
    }

    /// The answer to the call of `item` has come. The item either awaits
    /// its next call, or is done: then its bytes are added to the total, its
    /// permit is free, and waiting pipelines start.
    pub open spec fn on_reply(self, item: int, reply: ReplyModel) -> (
        BatchModel,
        Seq<ItemCallModel>,
    ) {
        let stepped = self.pipelines[item].on_reply(reply, self.settings);
        match stepped.1 {
            Some(call) => (
                BatchModel { pipelines: self.pipelines.update(item, stepped.0), ..self },
                seq![ItemCallModel { item, call }],
            ),
            None => self.with_done(item, stepped.0).start_waiting(),
        }
    }

    /// Whether the run has not failed. A failed item does not fail the run;
    /// a failed discovery does.
    pub open spec fn succeeded(self) -> bool {
        self.aborted is None
    }

    /// Whether nothing is left to do: no page to ask for, and every
    /// pipeline done.
    pub open spec fn complete(self) -> bool {
        (self.aborted is Some || self.cursor.exhausted) && self.finished == self.pipelines.len()
    }
}

/// Replacing one pipeline changes the counts by what that pipeline counted
/// for.
pub proof fn lemma_census_update(pipelines: Seq<PipelineModel>, i: int, p: PipelineModel)
    requires
        0 <= i < pipelines.len(),
    ensures
        census(pipelines.update(i, p)).plus(Census::of(pipelines[i])) == census(pipelines).plus(
            Census::of(p),
        ),
    decreases pipelines.len(),
{
    let updated = pipelines.update(i, p);
    if i == pipelines.len() - 1 {
        assert(updated.drop_last() =~= pipelines.drop_last());
    } else {
        assert(updated.drop_last() =~= pipelines.drop_last().update(i, p));
        lemma_census_update(pipelines.drop_last(), i, p);
    }
}

/// Pending pipelines count for nothing.
pub proof fn lemma_census_append_pending(pipelines: Seq<PipelineModel>, records: Seq<RecordModel>)
    ensures
        census(pipelines + pending_all(records)) == census(pipelines),
    decreases records.len(),
{
    let added = pending_all(records);
    if records.len() == 0 {
        assert(pipelines + added =~= pipelines);
    } else {
        let fewer = records.drop_last();
        assert((pipelines + added).drop_last() =~= pipelines + pending_all(fewer));
        lemma_census_append_pending(pipelines, fewer);
    }
}

/// What reaches a batch from outside.
pub enum EventModel {
    /// A page of records has come.
    Page(Seq<RecordModel>),
    /// The discovery has failed.
    PageFailed(Seq<char>),
    /// The answer to the call of an item has come.
    Reply(int, ReplyModel),
}

impl BatchModel {
    /// Whether `event` can happen in this state: an answer has to be the
    /// one that its item awaits.
    pub open spec fn allows(self, event: EventModel) -> bool {
        match event {
            EventModel::Page(_) => true,
            EventModel::PageFailed(_) => true,
            EventModel::Reply(item, reply) => self.accepts(item, reply),
        }
    }

    /// The state after `event`.
    pub open spec fn after(self, event: EventModel) -> BatchModel {
        match event {
            EventModel::Page(records) => self.on_page(records).0,
            EventModel::PageFailed(reason) => self.on_page_failed(reason),
            EventModel::Reply(item, reply) => self.on_reply(item, reply).0,
        }
    }

    /// Whether `events` can happen one after the other from this state.
    pub open spec fn allows_all(self, events: Seq<EventModel>) -> bool
        decreases events.len(),
    {
        events.len() > 0 ==> {
            &&& self.allows_all(events.drop_last())
            &&& self.after_all(events.drop_last()).allows(events.last())
        }
    }

    /// The state after `events`, one after the other.
    pub open spec fn after_all(self, events: Seq<EventModel>) -> BatchModel
        decreases events.len(),
    {
        if events.len() == 0 {
            self
        } else {
            self.after_all(events.drop_last()).after(events.last())
        }
    }
}

/// What a pending pipeline that gets its permit counts for, before and
/// after.
proof fn lemma_start_shape(p: PipelineModel, settings: SettingsModel)
    requires
        p.wf(),
        p.stage is Pending,
    ensures
        p.start(settings).0.wf(),
        p.start(settings).1 is Some ==> Census::of(p.start(settings).0) == (Census {
            in_flight: 1,
            done: 0,
            contributed: 0,
        }),
        p.start(settings).1 is None ==> Census::of(p.start(settings).0) == (Census {
            in_flight: 0,
            done: 1,
            contributed: 0,
        }),
        Census::of(p) == Census::zero(),
{
    lemma_start_keeps_wf(p, settings);
}

/// What a pipeline that takes the answer it awaits counts for, before and
/// after.
proof fn lemma_reply_shape(p: PipelineModel, reply: ReplyModel, settings: SettingsModel)
    requires
        p.wf(),
        p.awaits(reply),
    ensures
        p.on_reply(reply, settings).0.wf(),
        Census::of(p) == (Census { in_flight: 1, done: 0, contributed: 0 }),
        p.on_reply(reply, settings).1 is Some ==> Census::of(p.on_reply(reply, settings).0) == (
        Census { in_flight: 1, done: 0, contributed: 0 }),
        p.on_reply(reply, settings).1 is None ==> Census::of(p.on_reply(reply, settings).0) == (
        Census { in_flight: 0, done: 1, contributed: p.on_reply(reply, settings).0.contributed() }),
{
    lemma_reply_keeps_wf(p, reply, settings);
}

/// Giving a permit to the pipeline that has waited longest keeps a batch
/// consistent.
pub proof fn lemma_start_next_is_consistent(batch: BatchModel)
    requires
        batch.consistent(),
        batch.can_start_next(),
    ensures
        batch.start_next().0.consistent(),
{
    let item = batch.started as int;
    let p = batch.pipelines[item];
    lemma_start_shape(p, batch.settings);
    lemma_census_update(batch.pipelines, item, p.start(batch.settings).0);
}

/// Starting waiting pipelines leaves a consistent batch well-formed: no
/// pipeline waits while a permit is free. It gives a pipeline that waited
/// its first step, in the order of discovery, and changes no other
/// pipeline, nor the total.
pub proof fn lemma_start_waiting(batch: BatchModel)
    requires
        batch.consistent(),
    ensures
        batch.start_waiting().0.wf(),
        batch.start_waiting().0.pipelines.len() == batch.pipelines.len(),
        batch.start_waiting().0.started >= batch.started,
        batch.start_waiting().0.outstanding >= batch.outstanding,
        batch.start_waiting().0.settings == batch.settings,
        batch.start_waiting().0.capacity == batch.capacity,
        batch.start_waiting().0.total == batch.total,
        batch.start_waiting().0.cursor == batch.cursor,
        batch.start_waiting().0.aborted == batch.aborted,
        forall|j: int|
            0 <= j < batch.started ==> batch.start_waiting().0.pipelines[j]
                == #[trigger] batch.pipelines[j],
        forall|j: int|
            batch.started <= j < batch.start_waiting().0.started
                ==> batch.start_waiting().0.pipelines[j] == (#[trigger] batch.pipelines[j]).start(
                batch.settings,
            ).0,
        forall|j: int|
            batch.start_waiting().0.started <= j < batch.pipelines.len()
                ==> batch.start_waiting().0.pipelines[j] == #[trigger] batch.pipelines[j],
    decreases batch.pipelines.len() - batch.started,
{
    if batch.can_start_next() {
        let next = batch.start_next().0;
        let last = batch.start_waiting().0;
        lemma_start_next_is_consistent(batch);
        lemma_start_waiting(next);
        assert forall|j: int| 0 <= j < batch.started implies last.pipelines[j]
            == #[trigger] batch.pipelines[j] by {
            assert(last.pipelines[j] == next.pipelines[j]);
        }
        assert forall|j: int| batch.started <= j < last.started implies last.pipelines[j] == (
        #[trigger] batch.pipelines[j]).start(batch.settings).0 by {
            if j == batch.started {
                assert(last.pipelines[j] == next.pipelines[j]);
            } else {
                assert(next.pipelines[j] == batch.pipelines[j]);
            }
        }
        assert forall|j: int| last.started <= j < batch.pipelines.len() implies last.pipelines[j]
            == #[trigger] batch.pipelines[j] by {
            assert(last.pipelines[j] == next.pipelines[j]);
        }
    }
}

/// Taking a page in keeps a batch consistent: the new pipelines wait, and
/// count for nothing yet.
pub proof fn lemma_with_page_is_consistent(batch: BatchModel, records: Seq<RecordModel>)
    requires
        batch.consistent(),
    ensures
        batch.with_page(records).consistent(),
{
    lemma_census_append_pending(batch.pipelines, records);
}

/// An item that takes the answer it awaits holds a permit; where the answer
/// ends it, the batch with the item done is consistent; where the item goes
/// on, the batch is as well-formed as before.
pub proof fn lemma_with_reply_is_consistent(batch: BatchModel, item: int, reply: ReplyModel)
    requires
        batch.consistent(),
        batch.accepts(item, reply),
    ensures
        batch.outstanding > 0,
        batch.pipelines[item].on_reply(reply, batch.settings).1 is None ==> batch.with_done(
            item,
            batch.pipelines[item].on_reply(reply, batch.settings).0,
        ).consistent(),
        batch.pipelines[item].on_reply(reply, batch.settings).1 is Some ==> (BatchModel {
            pipelines: batch.pipelines.update(
                item,
                batch.pipelines[item].on_reply(reply, batch.settings).0,
            ),
            ..batch
        }).consistent(),
        batch.wf() && batch.pipelines[item].on_reply(reply, batch.settings).1 is Some ==> (
        BatchModel {
            pipelines: batch.pipelines.update(
                item,
                batch.pipelines[item].on_reply(reply, batch.settings).0,
            ),
            ..batch
        }).wf(),
{
    let p = batch.pipelines[item];
    let stepped = p.on_reply(reply, batch.settings);
    lemma_reply_shape(p, reply, batch.settings);
    lemma_census_update(batch.pipelines, item, stepped.0);
    lemma_census_update(batch.pipelines, item, p.finished(ResultModel::Success { contributed: 0 }));
}

/// Every event keeps a batch well-formed, and none changes its capacity or
/// its settings.
pub proof fn lemma_event_keeps_wf(batch: BatchModel, event: EventModel)
    requires
        batch.wf(),
        batch.allows(event),
    ensures
        batch.after(event).wf(),
        batch.after(event).capacity == batch.capacity,
        batch.after(event).settings == batch.settings,
{
    match event {
        EventModel::Page(records) => {
            lemma_with_page_is_consistent(batch, records);
            lemma_start_waiting(batch.with_page(records));
        },
        EventModel::PageFailed(reason) => {},
        EventModel::Reply(item, reply) => {
            lemma_with_reply_is_consistent(batch, item, reply);
            let stepped = batch.pipelines[item].on_reply(reply, batch.settings);
            if stepped.1 is None {
                lemma_start_waiting(batch.with_done(item, stepped.0));
            }
        },
    }
}

/// Every state that a batch can reach is well-formed, with the capacity
/// and the settings it began with.
pub proof fn lemma_reachable_is_wf(batch: BatchModel, events: Seq<EventModel>)
    requires
        batch.wf(),
        batch.allows_all(events),
    ensures
        batch.after_all(events).wf(),
        batch.after_all(events).capacity == batch.capacity,
        batch.after_all(events).settings == batch.settings,
    decreases events.len(),
{
    if events.len() > 0 {
        lemma_reachable_is_wf(batch, events.drop_last());
        lemma_event_keeps_wf(batch.after_all(events.drop_last()), events.last());
    }
}

/// Whatever pages and answers come, and in whatever order, the number of
/// items that hold a permit never exceeds the capacity.
pub proof fn lemma_concurrency_bound(
    settings: SettingsModel,
    capacity: nat,
    page_size: nat,
    events: Seq<EventModel>,
)
    requires
        BatchModel::fresh(settings, capacity, page_size).allows_all(events),
    ensures
        census(BatchModel::fresh(settings, capacity, page_size).after_all(events).pipelines).in_flight
            <= capacity,
{
    lemma_reachable_is_wf(BatchModel::fresh(settings, capacity, page_size), events);
}

/// Whatever pages and answers come, and in whatever order, the total is the
/// sum of what the items contributed: for each item that went through, the
/// bytes that its last answer reported, and nothing for one that failed or
/// is not done.
pub proof fn lemma_aggregate_is_sum(
    settings: SettingsModel,
    capacity: nat,
    page_size: nat,
    events: Seq<EventModel>,
)
    requires
        BatchModel::fresh(settings, capacity, page_size).allows_all(events),
    ensures
        BatchModel::fresh(settings, capacity, page_size).after_all(events).total == census(
            BatchModel::fresh(settings, capacity, page_size).after_all(events).pipelines,
        ).contributed,
{
    lemma_reachable_is_wf(BatchModel::fresh(settings, capacity, page_size), events);
}

/// An item whose identifier is empty is done without a call and
/// contributes nothing; so does an item that fails.
pub proof fn lemma_skipped_and_failed_contribute_nothing(
    pipeline: PipelineModel,
    settings: SettingsModel,
    reason: Seq<char>,
)
    ensures
        pipeline.dispatch(Seq::empty(), settings.action).0.stage is Done,
        pipeline.dispatch(Seq::empty(), settings.action).0.contributed() == 0,
        pipeline.dispatch(Seq::empty(), settings.action).1 is None,
        pipeline.on_reply(ReplyModel::Failed(reason), settings).0.stage is Done,
        pipeline.on_reply(ReplyModel::Failed(reason), settings).0.contributed() == 0,
        pipeline.on_reply(ReplyModel::Failed(reason), settings).1 is None,
{
}

/// The failure of one item ends that item alone. It fails neither the run
/// nor any other item: every other pipeline is as it was, or, if it waited
/// for a permit, has taken its first step. The failed item adds nothing to
/// the total, and its permit is free for the next.
pub proof fn lemma_failure_is_isolated(batch: BatchModel, item: int, reason: Seq<char>)
    requires
        batch.wf(),
        batch.accepts(item, ReplyModel::Failed(reason)),
    ensures
        ({
            let after = batch.on_reply(item, ReplyModel::Failed(reason)).0;
            &&& after.wf()
            &&& after.succeeded() == batch.succeeded()
            &&& after.total == batch.total
            &&& after.pipelines.len() == batch.pipelines.len()
            &&& after.pipelines[item].stage is Done
            &&& after.outstanding <= batch.outstanding
            &&& forall|other: int|
                0 <= other < batch.pipelines.len() && other != item ==> {
                    ||| after.pipelines[other] == #[trigger] batch.pipelines[other]
                    ||| batch.pipelines[other].stage is Pending && after.pipelines[other]
                        == batch.pipelines[other].start(batch.settings).0
                }
        }),
{
    let reply = ReplyModel::Failed(reason);
    let after = batch.on_reply(item, reply).0;
    let failed = batch.pipelines[item].on_reply(reply, batch.settings).0;
    let eased = batch.with_done(item, failed);
    lemma_with_reply_is_consistent(batch, item, reply);
    lemma_start_waiting(eased);
    assert(after.pipelines[item] == eased.pipelines[item]);
    assert forall|other: int| 0 <= other < batch.pipelines.len() && other != item implies {
        ||| after.pipelines[other] == #[trigger] batch.pipelines[other]
        ||| batch.pipelines[other].stage is Pending && after.pipelines[other]
            == batch.pipelines[other].start(batch.settings).0
    } by {
        assert(eased.pipelines[other] == batch.pipelines[other]);
        if other < eased.started {
        } else if other < after.started {
            assert(after.pipelines[other] == eased.pipelines[other].start(eased.settings).0);
        } else {
        }
    }
}

/// Two batches that differ only in one pipeline that has started, and in
/// their totals, start the same waiting pipelines with the same calls.
proof fn lemma_start_waiting_ignores_started(a: BatchModel, b: BatchModel, item: int)
    requires
        0 <= item < a.started,
        a.started <= a.pipelines.len(),
        b == (BatchModel { pipelines: a.pipelines.update(item, b.pipelines[item]), total: b.total, ..a }),
    ensures
        a.start_waiting().1 == b.start_waiting().1,
        b.start_waiting().0 == (BatchModel {
            pipelines: a.start_waiting().0.pipelines.update(item, b.pipelines[item]),
            total: b.total,
            ..a.start_waiting().0
        }),
    decreases a.pipelines.len() - a.started,
{
    if a.can_start_next() {
        let next_a = a.start_next().0;
        let next_b = b.start_next().0;
        let at = a.started as int;
        assert(b.pipelines[at] == a.pipelines[at]);
        assert(next_b.pipelines =~= next_a.pipelines.update(item, next_b.pipelines[item]));
        assert(next_b.pipelines[item] == b.pipelines[item]);
        lemma_start_waiting_ignores_started(next_a, next_b, item);
    } else {
        assert(a.pipelines.update(item, b.pipelines[item]) =~= b.pipelines);
    }
}

/// Whether an item ends in failure or goes through makes no difference to
/// the rest of the batch: the same pipelines start, with the same calls,
/// and every other pipeline is the same.
pub proof fn lemma_failure_frees_as_success_does(
    batch: BatchModel,
    item: int,
    reply: ReplyModel,
    reason: Seq<char>,
)
    requires
        batch.wf(),
        batch.accepts(item, reply),
        batch.pipelines[item].on_reply(reply, batch.settings).1 is None,
    ensures
        batch.accepts(item, ReplyModel::Failed(reason)),
        batch.on_reply(item, ReplyModel::Failed(reason)).1 == batch.on_reply(item, reply).1,
        batch.on_reply(item, ReplyModel::Failed(reason)).0.outstanding == batch.on_reply(
            item,
            reply,
        ).0.outstanding,
        batch.on_reply(item, ReplyModel::Failed(reason)).0.started == batch.on_reply(
            item,
            reply,
        ).0.started,
        forall|other: int|
            0 <= other < batch.pipelines.len() && other != item ==> #[trigger] batch.on_reply(
                item,
                ReplyModel::Failed(reason),
            ).0.pipelines[other] == batch.on_reply(item, reply).0.pipelines[other],
{
    let done = batch.pipelines[item].on_reply(reply, batch.settings).0;
    let failed = batch.pipelines[item].on_reply(ReplyModel::Failed(reason), batch.settings).0;
    let a = batch.with_done(item, done);
    let b = batch.with_done(item, failed);
    lemma_with_reply_is_consistent(batch, item, reply);
    lemma_start_waiting(a);
    assert(b.pipelines =~= a.pipelines.update(item, b.pipelines[item]));
    lemma_start_waiting_ignores_started(a, b, item);
    assert forall|other: int|
        0 <= other < batch.pipelines.len() && other != item implies #[trigger] batch.on_reply(
        item,
        ReplyModel::Failed(reason),
    ).0.pipelines[other] == batch.on_reply(item, reply).0.pipelines[other] by {
        assert(b.start_waiting().0.pipelines[other] == a.start_waiting().0.pipelines[other]);
    }
}

} // verus!
