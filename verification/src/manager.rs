//! The set of adapters of a server, and the joining of what they return.
//!
//! A request goes to every adapter at once. Each answers when it can; the
//! answers are kept by the place of their adapter and merged in the order
//! in which the adapters were registered, whatever the order in which they
//! came in.

use crate::bitsearch::{IndexerBitsearch, IndexerBitsearchConfig};
use crate::i1337x::{Indexer1337x, Indexer1337xConfig};
use crate::prelude::{IndexerResult, ResultView, SiteView};
use crate::thepiratebay::{ApiView, IndexerThePirateBay, IndexerThePirateBayConfig};
use vstd::prelude::*;

verus! {

/// The settings of one adapter.
#[derive(Debug)]
pub enum IndexerConfig {
    I1337x(Indexer1337xConfig),
    Bitsearch(IndexerBitsearchConfig),
    ThePirateBay(IndexerThePirateBayConfig),
}

/// One adapter.
#[derive(Debug)]
pub enum Indexer {
    I1337x(Indexer1337x),
    Bitsearch(IndexerBitsearch),
    ThePirateBay(IndexerThePirateBay),
}

/// The settings of the adapters of a server, each under its name.
#[derive(Debug)]
pub struct IndexerManagerConfig(pub Vec<(String, IndexerConfig)>);

/// The adapters of a server, in the order of their registration.
#[derive(Debug)]
pub struct IndexerManager {
    indexers: Vec<Indexer>,
}

/// An adapter as plain values.
pub enum IndexerView {
    I1337x(SiteView),
    Bitsearch(SiteView),
    ThePirateBay(ApiView),
}

impl View for Indexer {
    type V = IndexerView;

    open spec fn view(&self) -> IndexerView {
        match self {
            Indexer::I1337x(inner) => IndexerView::I1337x(inner@),
            Indexer::Bitsearch(inner) => IndexerView::Bitsearch(inner@),
            Indexer::ThePirateBay(inner) => IndexerView::ThePirateBay(inner@),
        }
    }
}

impl IndexerConfig {
    /// The adapter that the settings describe, called `name`.
    pub open spec fn built(self, name: Seq<char>) -> IndexerView {
        match self {
            IndexerConfig::I1337x(inner) => IndexerView::I1337x(
                SiteView { name, base_url: inner.base_url@ },
            ),
            IndexerConfig::Bitsearch(inner) => IndexerView::Bitsearch(
                SiteView { name, base_url: inner.base_url@ },
            ),
            IndexerConfig::ThePirateBay(inner) => IndexerView::ThePirateBay(
                ApiView { name, api_url: inner.api_url@, base_url: inner.base_url@ },
            ),
        }
    }

    /// The adapter of these settings, called `name`.
    pub fn build(self, name: String) -> (indexer: Indexer)
        ensures
            indexer@ == self.built(name@),
    {
        match self {
            IndexerConfig::Bitsearch(inner) => Indexer::Bitsearch(inner.build(name)),
            IndexerConfig::I1337x(inner) => Indexer::I1337x(inner.build(name)),
            IndexerConfig::ThePirateBay(inner) => Indexer::ThePirateBay(inner.build(name)),
        }
    }
}

/// The adapters of `s` as plain values.
pub open spec fn indexer_views(s: Seq<Indexer>) -> Seq<IndexerView> {
    s.map_values(|indexer: Indexer| indexer@)
}

/// The adapters that the settings `s` describe, each under its name.
pub open spec fn configured(s: Seq<(String, IndexerConfig)>) -> Seq<IndexerView> {
    s.map_values(|pair: (String, IndexerConfig)| pair.1.built(pair.0@))
}

impl IndexerManagerConfig {
    /// The manager of one adapter for each of the settings, in their order.
    pub fn build(self) -> (manager: IndexerManager)
        ensures
            manager@ == configured(self.0@),
    {
        let mut indexers: Vec<Indexer> = Vec::new();
        let ghost all = self.0@;
        for pair in it: self.0
            invariant
                it.seq() == all,
                indexer_views(indexers@) =~= configured(all).take(it.index()),
        {
            let (name, config) = pair;
            let ghost before = indexers@;
            indexers.push(config.build(name));
            assert(indexer_views(indexers@) =~= indexer_views(before).push(
                all[it.index()].1.built(all[it.index()].0@),
            ));
            assert(configured(all).take(it.index() + 1) =~= configured(all).take(it.index()).push(
                all[it.index()].1.built(all[it.index()].0@),
            ));
        }
        assert(configured(all).take(all.len() as int) =~= configured(all));
        IndexerManager { indexers }
    }
}

impl View for IndexerManager {
    type V = Seq<IndexerView>;

    closed spec fn view(&self) -> Seq<IndexerView> {
        indexer_views(self.indexers@)
    }
}

/// The three adapters of a server without settings, each for its site as
/// it is found by default.
pub open spec fn default_indexers() -> Seq<IndexerView> {
    seq![
        IndexerView::I1337x(
            SiteView { name: crate::i1337x::NAME@, base_url: crate::i1337x::BASE_URL@ },
        ),
        IndexerView::Bitsearch(
            SiteView { name: crate::bitsearch::NAME@, base_url: crate::bitsearch::BASE_URL@ },
        ),
        IndexerView::ThePirateBay(
            ApiView {
                name: "ThePirateBay"@,
                api_url: crate::thepiratebay::API_URL@,
                base_url: crate::thepiratebay::BASE_URL@,
            },
        ),
    ]
}

impl Default for IndexerManager {
    fn default() -> (manager: Self)
        ensures
            manager@ == default_indexers(),
    {
        let mut indexers: Vec<Indexer> = Vec::new();
        indexers.push(Indexer::I1337x(Indexer1337x::default()));
        indexers.push(Indexer::Bitsearch(IndexerBitsearch::default()));
        indexers.push(Indexer::ThePirateBay(IndexerThePirateBay::default()));
        assert(indexer_views(indexers@) =~= default_indexers());
        IndexerManager { indexers }
    }
}

/// The batches `batches` merged in order.
pub open spec fn merged(batches: Seq<ResultView>) -> ResultView
    decreases batches.len(),
{
    if batches.len() == 0 {
        ResultView::empty()
    } else {
        merged(batches.drop_last()).merge(batches.last())
    }
}

/// The batches of `s` as plain values.
pub open spec fn batch_views(s: Seq<IndexerResult>) -> Seq<ResultView> {
    s.map_values(|batch: IndexerResult| batch@)
}

impl IndexerManager {
    /// The manager of one adapter.
    pub fn with_indexer(indexer: Indexer) -> (manager: Self)
        ensures
            manager@ == seq![indexer@],
    {
        let mut indexers: Vec<Indexer> = Vec::new();
        indexers.push(indexer);
        assert(indexer_views(indexers@) =~= seq![indexer@]);
        Self { indexers }
    }

    /// The adapters, in the order of their registration.
    pub fn indexers(&self) -> (list: &Vec<Indexer>)
        ensures
            indexer_views(list@) == self@,
    {
        &self.indexers
    }

    /// What the manager returns for the batches of its adapters, given in
    /// the order of the adapters: all their entries and all their errors,
    /// in that order. No batch is dropped for the errors of another.
    pub fn merge(batches: Vec<IndexerResult>) -> (batch: IndexerResult)
        ensures
            batch@ == merged(batch_views(batches@)),
    {
        let mut batch = IndexerResult::default();
        let ghost all = batches@;
        let ghost views = batch_views(all);
        assert(views.take(0) =~= Seq::empty());
        for next in it: batches
            invariant
                it.seq() == all,
                views == batch_views(all),
                batch@ == merged(views.take(it.index())),
        {
            batch = batch.merge(next);
            assert(views.take(it.index() + 1).drop_last() =~= views.take(it.index()));
            assert(views.take(it.index() + 1).last() == all[it.index()]@);
        }
        assert(views.take(all.len() as int) =~= views);
        batch
    }
}

/// The answers to one request: one place for each adapter, empty until the
/// adapter has answered.
#[derive(Debug)]
pub struct Join {
    slots: Vec<Option<IndexerResult>>,
}

/// The batch in a place, as plain values.
pub open spec fn slot_view(slot: Option<IndexerResult>) -> Option<ResultView> {
    match slot {
        Some(batch) => Some(batch@),
        None => None,
    }
}

/// The batch that a place stands for: its own, or the empty one while the
/// adapter has not answered.
pub open spec fn slot_batch(slot: Option<ResultView>) -> ResultView {
    match slot {
        Some(batch) => batch,
        None => ResultView::empty(),
    }
}

/// What the places give: their batches merged in the order of the places.
pub open spec fn joined(slots: Seq<Option<ResultView>>) -> ResultView {
    merged(slots.map_values(|slot: Option<ResultView>| slot_batch(slot)))
}

impl View for Join {
    type V = Seq<Option<ResultView>>;

    closed spec fn view(&self) -> Seq<Option<ResultView>> {
        self.slots@.map_values(|slot: Option<IndexerResult>| slot_view(slot))
    }
}

impl Join {
    /// The places of `count` adapters, all empty.
    pub fn new(count: usize) -> (join: Self)
        ensures
            join@ == Seq::new(count as nat, |i: int| None::<ResultView>),
    {
        let mut slots: Vec<Option<IndexerResult>> = Vec::new();
        let mut i: usize = 0;
        while i < count
            invariant
                i <= count,
                slots@.len() == i,
                forall|k: int| 0 <= k < i ==> slots@[k] is None,
            decreases count - i,
        {
            slots.push(None);
            i += 1;
        }
        let join = Self { slots };
        assert(join@ =~= Seq::new(count as nat, |i: int| None::<ResultView>));
        join
    }

    /// Keeps the answer of the adapter at place `index`. An answer for a
    /// place that does not exist, or that holds an answer already, is
    /// dropped: each adapter's failure is recorded once.
    pub fn complete(&mut self, index: usize, batch: IndexerResult)
        ensures
            final(self)@ == if index < old(self)@.len() && old(self)@[index as int] is None {
                old(self)@.update(index as int, Some(batch@))
            } else {
                old(self)@
            },
    {
        if index < self.slots.len() {
            if self.slots[index].is_none() {
                self.slots.set(index, Some(batch));
                assert(self@ =~= old(self)@.update(index as int, Some(batch@)));
            }
        }
    }

    /// Whether every adapter has answered.
    pub fn is_complete(&self) -> (done: bool)
        ensures
            done == forall|i: int| 0 <= i < self@.len() ==> (#[trigger] self@[i]) is Some,
    {
        let mut i: usize = 0;
        while i < self.slots.len()
            invariant
                i <= self.slots.len(),
                forall|k: int| 0 <= k < i ==> (#[trigger] self@[k]) is Some,
            decreases self.slots.len() - i,
        {
            if self.slots[i].is_none() {
                assert(self@[i as int] is None);
                return false;
            }
            i += 1;
        }
        true
    }

    /// The batches of the places, merged in the order of the places.
    pub fn finish(self) -> (batch: IndexerResult)
        ensures
            batch@ == joined(self@),
    {
        let mut batch = IndexerResult::default();
        let ghost all = self.slots@;
        let ghost views = self@.map_values(|slot: Option<ResultView>| slot_batch(slot));
        assert(views.take(0) =~= Seq::empty());
        for slot in it: self.slots
            invariant
                it.seq() == all,
                views == all.map_values(|slot: Option<IndexerResult>| slot_view(slot)).map_values(
                    |slot: Option<ResultView>| slot_batch(slot),
                ),
                batch@ == merged(views.take(it.index())),
        {
            let ghost before = batch@;
            match slot {
                Some(next) => {
                    batch = batch.merge(next);
                },
                None => {
                    proof {
                        crate::prelude::lemma_merge_identity(before);
                    }
                },
            }
            assert(views.take(it.index() + 1).drop_last() =~= views.take(it.index()));
            assert(views.take(it.index() + 1).last() == slot_batch(slot_view(all[it.index()])));
        }
        assert(views.take(all.len() as int) =~= views);
        batch
    }
}

/// Answers that come in for two different places give the same places in
/// either order: what is joined does not depend on which adapter answers
/// first.
pub proof fn lemma_join_order_free(
    slots: Seq<Option<ResultView>>,
    i: int,
    a: ResultView,
    j: int,
    b: ResultView,
)
    requires
        0 <= i < slots.len(),
        0 <= j < slots.len(),
        i != j,
    ensures
        slots.update(i, Some(a)).update(j, Some(b)) == slots.update(j, Some(b)).update(i, Some(a)),
        joined(slots.update(i, Some(a)).update(j, Some(b))) == joined(
            slots.update(j, Some(b)).update(i, Some(a)),
        ),
{
    assert(slots.update(i, Some(a)).update(j, Some(b)) =~= slots.update(j, Some(b)).update(
        i,
        Some(a),
    ));
}

/// The counts of what is merged are the sums of the counts of the batches.
pub proof fn lemma_merged_counts(batches: Seq<ResultView>)
    ensures
        merged(batches).entries.len() == total_entries(batches),
        merged(batches).errors.len() == total_errors(batches),
    decreases batches.len(),
{
    if batches.len() > 0 {
        lemma_merged_counts(batches.drop_last());
    }
}

/// How many entries the batches hold together.
pub open spec fn total_entries(batches: Seq<ResultView>) -> nat
    decreases batches.len(),
{
    if batches.len() == 0 {
        0
    } else {
        total_entries(batches.drop_last()) + batches.last().entries.len()
    }
}

/// How many errors the batches hold together.
pub open spec fn total_errors(batches: Seq<ResultView>) -> nat
    decreases batches.len(),
{
    if batches.len() == 0 {
        0
    } else {
        total_errors(batches.drop_last()) + batches.last().errors.len()
    }
}

} // verus!
