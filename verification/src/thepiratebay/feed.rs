//! The feeds of the site's categories: records whose numbers arrive as
//! numbers.

use super::common::{create_magnet, magnet_link};
use super::search::{description_url, failure, instant};
use super::NAME;
use crate::prelude::{
    outcome_view, EntryView, ErrorView, IndexerEntry, IndexerError, IndexerErrorReason,
    IndexerResult, ReasonView, ResultView,
};
use crate::text::{decimal_string, decimal_text, trim, trimmed};
use crate::time::{DateErrorKind, Timestamp};
use vstd::prelude::*;

verus! {

/// One record of the interface.
#[derive(Debug)]
pub struct Entry {
    pub id: u64,
    pub info_hash: String,
    pub name: String,
    pub leechers: u32,
    pub seeders: u32,
    pub added: i64,
    pub size: u64,
}

/// A record as plain values.
pub struct RecordView {
    pub id: nat,
    pub info_hash: Seq<char>,
    pub name: Seq<char>,
    pub leechers: nat,
    pub seeders: nat,
    pub added: int,
    pub size: nat,
}

impl View for Entry {
    type V = RecordView;

    open spec fn view(&self) -> RecordView {
        RecordView {
            id: self.id as nat,
            info_hash: self.info_hash@,
            name: self.name@,
            leechers: self.leechers as nat,
            seeders: self.seeders as nat,
            added: self.added as int,
            size: self.size as nat,
        }
    }
}

/// The records of `s` as plain values.
pub open spec fn record_views(s: Seq<Entry>) -> Seq<RecordView> {
    s.map_values(|record: Entry| record@)
}

/// What one record gives: an entry, or the error of a date outside the
/// years 0 to 9999, or that of the magnet link.
pub open spec fn converted(base_url: Seq<char>, record: RecordView) -> Result<EntryView, ErrorView> {
    if !Timestamp::holds(record.added) {
        failure(ReasonView::EntryDateInvalid { cause: DateErrorKind::Impossible })
    } else if magnet_link(record.name, record.info_hash) is Err {
        Err(magnet_link(record.name, record.info_hash)->Err_0)
    } else {
        Ok(
            EntryView {
                name: trimmed(record.name),
                url: description_url(base_url, decimal_text(record.id)),
                date: record.added,
                size: record.size,
                seeders: record.seeders,
                leechers: record.leechers,
                magnet: magnet_link(record.name, record.info_hash)->Ok_0,
                origin: NAME@,
            },
        )
    }
}

/// Records, or the error for none, as plain values.
pub open spec fn records_view(r: Result<Vec<Entry>, IndexerError>) -> Result<
    Seq<RecordView>,
    ErrorView,
> {
    match r {
        Ok(records) => Ok(record_views(records@)),
        Err(error) => Err(error@),
    }
}

/// The answers of `s` as plain values.
pub open spec fn answer_views(s: Seq<Result<Vec<Entry>, IndexerError>>) -> Seq<
    Result<Seq<RecordView>, ErrorView>,
> {
    s.map_values(|answer: Result<Vec<Entry>, IndexerError>| records_view(answer))
}

/// `before` with one answer taken: its records, each for itself and in
/// order, or the one error of an answer that could not be had.
pub open spec fn with_answer(
    before: ResultView,
    base_url: Seq<char>,
    answer: Result<Seq<RecordView>, ErrorView>,
) -> ResultView {
    match answer {
        Ok(records) => before.with_outcomes(
            records.map_values(|record: RecordView| converted(base_url, record)),
        ),
        Err(error) => before.with_error(error),
    }
}

/// `before` with the answers taken in order.
pub open spec fn with_answers(
    before: ResultView,
    base_url: Seq<char>,
    answers: Seq<Result<Seq<RecordView>, ErrorView>>,
) -> ResultView
    decreases answers.len(),
{
    if answers.len() == 0 {
        before
    } else {
        with_answer(with_answers(before, base_url, answers.drop_last()), base_url, answers.last())
    }
}

impl Entry {
    /// The entry of the record, described under `base_url`.
    pub fn try_into(self, base_url: &str) -> (r: Result<IndexerEntry, IndexerError>)
        ensures
            outcome_view(r) == converted(base_url@, self@),
    {
        let date = match instant(self.added) {
            Ok(t) => t,
            Err(cause) => {
                return Err(
                    IndexerError::new(NAME, IndexerErrorReason::EntryDateInvalid { cause }),
                );
            },
        };
        let magnet = match create_magnet(self.name.as_str(), self.info_hash.as_str()) {
            Ok(magnet) => magnet,
            Err(error) => { return Err(error); },
        };
        let id = decimal_string(self.id);
        let mut url = String::from_str(base_url);
        url.append("/description.php?id=");
        url.append(id.as_str());
        Ok(
            IndexerEntry {
                name: trim(self.name.as_str()),
                url,
                date,
                size: self.size,
                seeders: self.seeders as u64,
                leechers: self.leechers as u64,
                magnet,
                origin: NAME,
            },
        )
    }
}

/// Adds one answer to `batch`.
fn take_answer(batch: &mut IndexerResult, base_url: &str, answer: Result<Vec<Entry>, IndexerError>)
    ensures
        final(batch)@ == with_answer(old(batch)@, base_url@, records_view(answer)),
{
    let records = match answer {
        Ok(records) => records,
        Err(error) => {
            batch.push_error(error);
            return ;
        },
    };
    let ghost start = batch@;
    let ghost all = records@;
    let ghost outcomes = record_views(all).map_values(
        |record: RecordView| converted(base_url@, record),
    );
    assert(outcomes.take(0) =~= Seq::empty());
    for record in it: records
        invariant
            it.seq() == all,
            outcomes == record_views(all).map_values(
                |record: RecordView| converted(base_url@, record),
            ),
            batch@ == start.with_outcomes(outcomes.take(it.index())),
    {
        let outcome = record.try_into(base_url);
        batch.push_outcome(outcome);
        assert(outcomes.take(it.index() + 1).drop_last() =~= outcomes.take(it.index()));
        assert(outcomes.take(it.index() + 1).last() == converted(base_url@, all[it.index()]@));
    }
    assert(outcomes.take(all.len() as int) =~= outcomes);
}

/// The batch of a feed: the answers of the site's categories in the order
/// in which they were asked for, each giving its records or its one error.
pub fn execute(base_url: &str, answers: Vec<Result<Vec<Entry>, IndexerError>>) -> (batch:
    IndexerResult)
    ensures
        batch@ == with_answers(ResultView::empty(), base_url@, answer_views(answers@)),
{
    let mut batch = IndexerResult::default();
    let ghost all = answers@;
    let ghost views = answer_views(all);
    assert(views.take(0) =~= Seq::empty());
    for answer in it: answers
        invariant
            it.seq() == all,
            views == answer_views(all),
            batch@ == with_answers(ResultView::empty(), base_url@, views.take(it.index())),
    {
        take_answer(&mut batch, base_url, answer);
        assert(views.take(it.index() + 1).drop_last() =~= views.take(it.index()));
        assert(views.take(it.index() + 1).last() == records_view(all[it.index()]));
    }
    assert(views.take(all.len() as int) =~= views);
    batch
}

} // verus!
