//! The results of a search: records whose numbers arrive as text.

use super::common::{create_magnet, magnet_link};
use super::NAME;
use crate::numeric::{parse_plain, plain_count};
use crate::prelude::{
    error_of, outcome_view, EntryView, ErrorView, IndexerEntry, IndexerError, IndexerErrorReason,
    IndexerResult, ReasonView, ResultView,
};
use crate::text::{
    parse_i64, parse_signed, parse_u64, parse_unsigned, trim, trimmed, };
use crate::time::{DateErrorKind, Timestamp};
use vstd::prelude::*;

verus! {

/// One record of the interface.
#[derive(Debug)]
pub struct Entry {
    pub id: String,
    pub name: String,
    pub info_hash: String,
    pub leechers: String,
    pub seeders: String,
    pub added: String,
    pub size: String,
}

/// A record as plain values.
pub struct RecordView {
    pub id: Seq<char>,
    pub name: Seq<char>,
    pub info_hash: Seq<char>,
    pub leechers: Seq<char>,
    pub seeders: Seq<char>,
    pub added: Seq<char>,
    pub size: Seq<char>,
}

impl View for Entry {
    type V = RecordView;

    open spec fn view(&self) -> RecordView {
        RecordView {
            id: self.id@,
            name: self.name@,
            info_hash: self.info_hash@,
            leechers: self.leechers@,
            seeders: self.seeders@,
            added: self.added@,
            size: self.size@,
        }
    }
}

/// The records of `s` as plain values.
pub open spec fn record_views(s: Seq<Entry>) -> Seq<RecordView> {
    s.map_values(|record: Entry| record@)
}

/// An error of this adapter.
pub open spec fn failure(reason: ReasonView) -> Result<EntryView, ErrorView> {
    Err(error_of(NAME@, reason))
}

/// The instant `added` seconds after the Unix epoch, as written in decimal.
pub open spec fn added_instant(added: Seq<char>) -> Result<int, DateErrorKind> {
    match parse_signed(added) {
        Err(_) => Err(DateErrorKind::BadFormat),
        Ok(seconds) => if Timestamp::holds(seconds) {
            Ok(seconds)
        } else {
            Err(DateErrorKind::Impossible)
        },
    }
}

/// The page that describes the torrent `id`.
pub open spec fn description_url(base_url: Seq<char>, id: Seq<char>) -> Seq<char> {
    base_url + "/description.php?id="@ + id
}

/// What one record gives. The fields are taken in the order date, size,
/// seeders, leechers, magnet; the first that cannot be read decides the
/// error.
pub open spec fn converted(base_url: Seq<char>, record: RecordView) -> Result<EntryView, ErrorView> {
    if added_instant(record.added) is Err {
        failure(ReasonView::EntryDateInvalid { cause: added_instant(record.added)->Err_0 })
    } else if parse_unsigned(record.size, u64::MAX as nat) is Err {
        failure(
            ReasonView::EntrySizeInvalid {
                cause: parse_unsigned(record.size, u64::MAX as nat)->Err_0.text(),
            },
        )
    } else if plain_count(record.seeders) is Err {
        failure(ReasonView::EntrySeedersInvalid { cause: plain_count(record.seeders)->Err_0 })
    } else if plain_count(record.leechers) is Err {
        failure(ReasonView::EntryLeechersInvalid { cause: plain_count(record.leechers)->Err_0 })
    } else if magnet_link(record.name, record.info_hash) is Err {
        Err(magnet_link(record.name, record.info_hash)->Err_0)
    } else {
        Ok(
            EntryView {
                name: trimmed(record.name),
                url: description_url(base_url, record.id),
                date: added_instant(record.added)->Ok_0,
                size: parse_unsigned(record.size, u64::MAX as nat)->Ok_0,
                seeders: plain_count(record.seeders)->Ok_0,
                leechers: plain_count(record.leechers)->Ok_0,
                magnet: magnet_link(record.name, record.info_hash)->Ok_0,
                origin: NAME@,
            },
        )
    }
}

/// What an answer of the interface gives: where it could not be had, the
/// one error of that; else what its records give, each for itself, in
/// order.
pub open spec fn answer(base_url: Seq<char>, records: Result<Seq<RecordView>, ErrorView>) -> ResultView {
    match records {
        Ok(records) => ResultView::empty().with_outcomes(
            records.map_values(|record: RecordView| converted(base_url, record)),
        ),
        Err(error) => ResultView::empty().with_error(error),
    }
}

/// Records, or the error for none, as plain values.
pub open spec fn records_view(r: Result<Vec<Entry>, IndexerError>) -> Result<
    Seq<RecordView>,
    ErrorView,
> {
    match r {
        Ok(records) => Ok(record_views(records@)),
        Err(error) => Err(error@),
    }
}

fn fail(reason: IndexerErrorReason) -> (r: Result<IndexerEntry, IndexerError>)
    ensures
        outcome_view(r) == failure(reason@),
{
    Err(IndexerError::new(NAME, reason))
}

/// The instant that a number of seconds names, or why it names none.
pub fn instant(seconds: i64) -> (r: Result<Timestamp, DateErrorKind>)
    ensures
        match r {
            Ok(t) => Timestamp::holds(seconds as int) && t@ == seconds,
            Err(kind) => !Timestamp::holds(seconds as int) && kind == DateErrorKind::Impossible,
        },
{
    match Timestamp::from_unix(seconds) {
        Some(t) => Ok(t),
        None => Err(DateErrorKind::Impossible),
    }
}

impl Entry {
    /// The entry of the record, described under `base_url`.
    pub fn try_into(self, base_url: &str) -> (r: Result<IndexerEntry, IndexerError>)
        ensures
            outcome_view(r) == converted(base_url@, self@),
    {
        let date = match parse_i64(self.added.as_str()) {
            Err(_) => {
                return fail(
                    IndexerErrorReason::EntryDateInvalid { cause: DateErrorKind::BadFormat },
                );
            },
            Ok(seconds) => match instant(seconds) {
                Ok(t) => t,
                Err(cause) => { return fail(IndexerErrorReason::EntryDateInvalid { cause }); },
            },
        };
        let size = match parse_u64(self.size.as_str()) {
            Ok(bytes) => bytes,
            Err(kind) => {
                return fail(
                    IndexerErrorReason::EntrySizeInvalid {
                        cause: String::from_str(kind.message()),
                    },
                );
            },
        };
        let seeders = match parse_plain(self.seeders.as_str()) {
            Ok(count) => count,
            Err(cause) => { return fail(IndexerErrorReason::EntrySeedersInvalid { cause }); },
        };
        let leechers = match parse_plain(self.leechers.as_str()) {
            Ok(count) => count,
            Err(cause) => { return fail(IndexerErrorReason::EntryLeechersInvalid { cause }); },
        };
        let magnet = match create_magnet(self.name.as_str(), self.info_hash.as_str()) {
            Ok(magnet) => magnet,
            Err(error) => { return Err(error); },
        };
        let mut url = String::from_str(base_url);
        url.append("/description.php?id=");
        url.append(self.id.as_str());
        Ok(
            IndexerEntry {
                name: trim(self.name.as_str()),
                url,
                date,
                size,
                seeders,
                leechers,
                magnet,
                origin: NAME,
            },
        )
    }
}

/// The batch of a search: where the answer could not be had, the one error
/// of that; else each record as an entry or as the error of reading it.
pub fn execute(base_url: &str, answer_of_search: Result<Vec<Entry>, IndexerError>) -> (batch:
    IndexerResult)
    ensures
        batch@ == answer(base_url@, records_view(answer_of_search)),
{
    let records = match answer_of_search {
        Ok(records) => records,
        Err(error) => { return IndexerResult::from_error(error); },
    };
    let mut batch = IndexerResult::default();
    let ghost all = records@;
    let ghost outcomes = record_views(all).map_values(
        |record: RecordView| converted(base_url@, record),
    );
    assert(outcomes.take(0) =~= Seq::empty());
    for record in it: records
        invariant
            it.seq() == all,
            outcomes == record_views(all).map_values(
                |record: RecordView| converted(base_url@, record),
            ),
            batch@ == ResultView::empty().with_outcomes(outcomes.take(it.index())),
    {
        let outcome = record.try_into(base_url);
        batch.push_outcome(outcome);
        assert(outcomes.take(it.index() + 1).drop_last() =~= outcomes.take(it.index()));
        assert(outcomes.take(it.index() + 1).last() == converted(base_url@, all[it.index()]@));
    }
    assert(outcomes.take(all.len() as int) =~= outcomes);
    batch
}

} // verus!
