//! The batch itself: it owns the limiter, the counter, the cursor and every
//! pipeline, takes pages and answers as they come, and says which calls to
//! make next.

use vstd::prelude::*;
use crate::batch::{
    lemma_start_next_is_consistent, lemma_start_waiting, lemma_with_page_is_consistent,
    lemma_with_reply_is_consistent, pending_all, BatchModel, ItemCallModel,
};
use crate::counter::AggregateCounter;
use crate::cursor::{PageCursor, PageRequest};
use crate::http_structs::HicDexResponseDataTokens;
use crate::limiter::Limiter;
use crate::pipeline::{ItemPipeline, PipelineModel, Settings};
use crate::service::{ServiceCall, ServiceReply};

verus! {

/// A call to make for one item, named by its position in the order of
/// discovery. The answer is handed back under the same position.
#[derive(Debug, PartialEq, Eq)]
pub struct ItemCall {
    pub item: usize,
    pub call: ServiceCall,
}

impl View for ItemCall {
    type V = ItemCallModel;

    open spec fn view(&self) -> ItemCallModel {
        ItemCallModel { item: self.item as int, call: self.call@ }
    }
}

impl DeepView for ItemCall {
    type V = ItemCallModel;

    open spec fn deep_view(&self) -> ItemCallModel {
        self@
    }
}

/// A batch in progress.
pub struct Coordinator {
    settings: Settings,
    limiter: Limiter,
    counter: AggregateCounter,
    cursor: PageCursor,
    pipelines: Vec<ItemPipeline>,
    started: usize,
    finished: usize,
    aborted: Option<String>,
}

impl View for Coordinator {
    type V = BatchModel;

    closed spec fn view(&self) -> BatchModel {
        BatchModel {
            settings: self.settings@,
            capacity: self.limiter.spec_capacity() as nat,
            outstanding: self.limiter.spec_outstanding() as nat,
            total: self.counter@,
            cursor: self.cursor@,
            pipelines: self.pipelines.deep_view(),
            started: self.started as nat,
            finished: self.finished as nat,
            aborted: self.aborted.deep_view(),
        }
    }
}

impl Coordinator {
    /// A batch before its first page, with `capacity` permits and pages of
    /// `page_size` records.
    pub fn new(settings: Settings, capacity: usize, page_size: usize) -> (batch: Self)
        ensures
            batch@ == BatchModel::fresh(settings@, capacity as nat, page_size as nat),
            batch@.wf(),
    {
        let batch = Coordinator {
            settings,
            limiter: Limiter::new(capacity),
            counter: AggregateCounter::new(),
            cursor: PageCursor::new(page_size),
            pipelines: Vec::new(),
            started: 0,
            finished: 0,
            aborted: None,
        };
        assert(batch.pipelines.deep_view() =~= Seq::empty());
        batch
    }

    /// Gives permits to waiting pipelines for as long as one is free, and
    /// returns the calls to make for them.
    fn start_waiting(&mut self) -> (calls: Vec<ItemCall>)
        requires
            old(self)@.consistent(),
        ensures
            final(self)@ == old(self)@.start_waiting().0,
            calls.deep_view() == old(self)@.start_waiting().1,
            final(self)@.wf(),
    {
        let mut calls: Vec<ItemCall> = Vec::new();
        let ghost target = old(self)@.start_waiting();
        assert(calls.deep_view() + self@.start_waiting().1 =~= target.1);
        while self.started < self.pipelines.len() && self.limiter.has_free_permit()
            invariant
                self@.consistent(),
                self@.start_waiting().0 == target.0,
                calls.deep_view() + self@.start_waiting().1 == target.1,
            decreases self.pipelines.len() - self.started,
        {
            let ghost before = self@;
            let ghost sent = calls.deep_view();
            let item = self.started;
            proof {
                lemma_start_next_is_consistent(before);
            }
            let call = self.pipelines[item].start(&self.settings);
            self.started = item + 1;
            match call {
                Some(call) => {
                    let _ = self.limiter.try_acquire();
                    calls.push(ItemCall { item, call });
                    proof {
                        assert(calls.deep_view() =~= sent.push(before.start_next().1->0));
                    }
                },
                None => {
                    self.finished = self.finished + 1;
                },
            }
            proof {
                assert(self@.pipelines =~= before.start_next().0.pipelines);
                assert(self@ == before.start_next().0);
                assert(calls.deep_view() + self@.start_waiting().1 =~= sent
                    + before.start_waiting().1);
            }
        }
        proof {
            lemma_start_waiting(old(self)@);
        }
        calls
    }

    /// The page to ask for next: none once a page has come back short, or
    /// the discovery has failed.
    pub fn next_page_request(&self) -> (request: Option<PageRequest>)
        ensures
            request == if self@.aborted is Some || self@.cursor.exhausted {
                None
            } else {
                Some(
                    (PageRequest {
                        offset: self@.cursor.offset as usize,
                        limit: self@.cursor.page_size as usize,
                    }),
                )
            },
    {
        if self.aborted.is_some() {
            None
        } else {
            self.cursor.next_request()
        }
    }

    /// Takes a page of records: each gets a pipeline, in the page's order,
    /// and as many start as permits are free. Returns the calls to make.
    pub fn on_page(&mut self, records: &Vec<HicDexResponseDataTokens>) -> (calls: Vec<ItemCall>)
        requires
            old(self)@.wf(),
        ensures
            final(self)@ == old(self)@.on_page(records.deep_view()).0,
            calls.deep_view() == old(self)@.on_page(records.deep_view()).1,
            final(self)@.wf(),
    {
        let ghost before = self@;
        let ghost page = records.deep_view();
        let mut at: usize = 0;
        assert(before.pipelines + pending_all(page.subrange(0, 0)) =~= before.pipelines);
        while at < records.len()
            invariant
                at <= records.len(),
                page == records.deep_view(),
                self@ == (BatchModel {
                    pipelines: before.pipelines + pending_all(page.subrange(0, at as int)),
                    ..before
                }),
            decreases records.len() - at,
        {
            let ghost grown = self@.pipelines;
            self.pipelines.push(ItemPipeline::new(&records[at]));
            proof {
                assert(self@.pipelines =~= grown.push(PipelineModel::pending(page[at as int])));
                assert(grown.push(PipelineModel::pending(page[at as int])) =~= before.pipelines
                    + pending_all(page.subrange(0, at + 1)));
            }
            at += 1;
        }
        let count = self.pipelines.len();
        proof {
            assert(page.subrange(0, at as int) =~= page);
            assert(self@.pipelines.len() == count);
            assert(pending_all(page).len() == page.len());
            assert(count == before.pipelines.len() + page.len());
            lemma_with_page_is_consistent(before, page);
        }
        self.cursor.advance(records.len());
        self.start_waiting()
    }

    /// Takes note that the discovery has failed for `reason`: no further
    /// page is asked for, and the run has failed.
    pub fn on_page_failed(&mut self, reason: String)
        ensures
            final(self)@ == old(self)@.on_page_failed(reason@),
            old(self)@.wf() ==> final(self)@.wf(),
    {
        self.aborted = Some(reason);
    }

    /// Whether `reply` can be handed in for `item`.
    pub fn accepts(&self, item: usize, reply: &ServiceReply) -> (accepted: bool)
        ensures
            accepted == self@.accepts(item as int, reply@),
    {
        item < self.pipelines.len() && self.pipelines[item].awaits(reply)
    }

    /// Whether the total has room for what `reply` makes `item` contribute.
    pub fn has_room_for(&self, item: usize, reply: &ServiceReply) -> (fits: bool)
        requires
            self@.wf(),
            self@.accepts(item as int, reply@),
        ensures
            fits == (self@.total + self@.gain(item as int, reply@) <= u64::MAX),
    {
        let gain = self.pipelines[item].gain(reply, &self.settings);
        self.counter.has_room_for(gain)
    }

    /// Takes the answer to the call of `item`. Returns the calls to make
    /// next: the item's own next call, or, where the item is done and its
    /// permit free, those of the pipelines that now start.
    pub fn on_reply(&mut self, item: usize, reply: ServiceReply) -> (calls: Vec<ItemCall>)
        requires
            old(self)@.wf(),
            old(self)@.accepts(item as int, reply@),
            old(self)@.total + old(self)@.gain(item as int, reply@) <= u64::MAX,
        ensures
            final(self)@ == old(self)@.on_reply(item as int, reply@).0,
            calls.deep_view() == old(self)@.on_reply(item as int, reply@).1,
            final(self)@.wf(),
    {
        let ghost before = self@;
        proof {
            lemma_with_reply_is_consistent(before, item as int, reply@);
        }
        let call = self.pipelines[item].on_reply(reply, &self.settings);
        proof {
            assert(self@.pipelines =~= before.pipelines.update(
                item as int,
                before.pipelines[item as int].on_reply(reply@, before.settings).0,
            ));
        }
        match call {
            Some(call) => {
                let mut calls: Vec<ItemCall> = Vec::new();
                calls.push(ItemCall { item, call });
                proof {
                    assert(calls.deep_view() =~= seq![ItemCallModel { item: item as int, call: call@ }]);
                }
                calls
            },
            None => {
                let gained = self.pipelines[item].contributed();
                let _ = self.counter.add(gained);
                self.limiter.release();
                self.finished = self.finished + 1;
                self.start_waiting()
            },
        }
    }

    /// The aggregate: the bytes that the items have contributed so far.
    pub fn total(&self) -> (total: u64)
        ensures
            total == self@.total,
    {
        self.counter.total()
    }

    /// The most items that may be in flight at once.
    pub fn capacity(&self) -> (capacity: usize)
        ensures
            capacity == self@.capacity,
    {
        self.limiter.capacity()
    }

    /// The number of items in flight: those that hold a permit.
    pub fn in_flight(&self) -> (in_flight: usize)
        ensures
            in_flight == self@.outstanding,
    {
        self.limiter.outstanding()
    }

    /// The number of items that are done, whether they went through or
    /// failed: the progress of the batch.
    pub fn progress(&self) -> (done: usize)
        ensures
            done == self@.finished,
    {
        self.finished
    }

    /// The number of items discovered so far.
    pub fn len(&self) -> (len: usize)
        ensures
            len == self@.pipelines.len(),
    {
        self.pipelines.len()
    }

    /// The pipeline of `item`.
    pub fn pipeline(&self, item: usize) -> (pipeline: &ItemPipeline)
        requires
            item < self@.pipelines.len(),
        ensures
            pipeline@ == self@.pipelines[item as int],
    {
        &self.pipelines[item]
    }

    /// Whether nothing is left to do: no page to ask for, and every item
    /// done.
    pub fn is_complete(&self) -> (complete: bool)
        ensures
            complete == self@.complete(),
    {
        (self.aborted.is_some() || self.cursor.is_exhausted()) && self.finished
            == self.pipelines.len()
    }

    /// Whether the run has not failed. Failed items do not fail it; a
    /// failed discovery does.
    pub fn has_succeeded(&self) -> (succeeded: bool)
        ensures
            succeeded == self@.succeeded(),
    {
        self.aborted.is_none()
    }

    /// The reason for which the discovery failed, if it did.
    pub fn fatal_reason(&self) -> (reason: &Option<String>)
        ensures
            reason.deep_view() == self@.aborted,
    {
        &self.aborted
    }
}

} // verus!
