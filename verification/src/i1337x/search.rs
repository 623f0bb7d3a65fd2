//! The listing page, read row by row.

use super::date::{date_of, parse_in_year};
use super::NAME;
use crate::numeric::{parse_plain, plain_count};
use crate::page::{
    attribute, attribute_of, canonical, compile, first_below, first_piece, first_text_of, joined,
    matching, node, nodes, parse_document, parsed, row_views, rule, select_all, select_first,
    text_of, texts_of, LinkView, RawLink, RawRow, RowView,
};
use crate::prelude::{
    error_of, outcome_view, EntryView, ErrorView, IndexerEntry, IndexerError, IndexerErrorReason,
    IndexerResult, ReasonView, ResultView,
};
use crate::size::{byte_size_of, read_byte_size};
use crate::text::{concat2, trim, trimmed};
use crate::time::current_year;
use scraper::{ElementRef, Selector};
use vstd::prelude::*;

verus! {

pub const ROW_SELECTOR: &'static str = ".table-list tbody tr";

pub const NAME_SELECTOR: &'static str = "td.name a:nth-child(2)";

pub const SEEDS_SELECTOR: &'static str = "td.seeds";

pub const LEECHERS_SELECTOR: &'static str = "td.leeches";

pub const SIZE_SELECTOR: &'static str = "td.size";

pub const DATE_SELECTOR: &'static str = "td.coll-date";

/// The selectors of a listing page, ready for use.
struct Selectors {
    row: Selector,
    name: Selector,
    seeds: Selector,
    leechers: Selector,
    size: Selector,
    date: Selector,
}

/// The rules by which a listing page is read: which elements are rows, and
/// where in a row each field stands.
pub struct Rules {
    pub row: Seq<char>,
    pub name: Seq<char>,
    pub seeds: Seq<char>,
    pub leechers: Seq<char>,
    pub size: Seq<char>,
    pub date: Seq<char>,
}

impl Selectors {
    /// The rules that the selectors hold.
    spec fn rules(self) -> Rules {
        Rules {
            row: rule(self.row),
            name: rule(self.name),
            seeds: rule(self.seeds),
            leechers: rule(self.leechers),
            size: rule(self.size),
            date: rule(self.date),
        }
    }
}

/// The rules of a listing page, as the six selectors above are read;
/// `None` where one of them is no selector.
pub open spec fn listing_rules() -> Option<Rules> {
    match (
        canonical(ROW_SELECTOR@),
        canonical(NAME_SELECTOR@),
        canonical(SEEDS_SELECTOR@),
        canonical(LEECHERS_SELECTOR@),
        canonical(SIZE_SELECTOR@),
        canonical(DATE_SELECTOR@),
    ) {
        (Some(row), Some(name), Some(seeds), Some(leechers), Some(size), Some(date)) => Some(
            Rules { row, name, seeds, leechers, size, date },
        ),
        _ => None,
    }
}

/// All the text below the first element under `row` that matches `rule`.
pub open spec fn whole_text(row: Seq<char>, rule: Seq<char>) -> Option<Seq<char>> {
    match first_below(row, rule) {
        Some(found) => Some(joined(texts_of(found))),
        None => None,
    }
}

/// The first piece of text below the first element under `row` that
/// matches `rule`.
pub open spec fn first_text_under(row: Seq<char>, rule: Seq<char>) -> Option<Seq<char>> {
    match first_below(row, rule) {
        Some(found) => first_piece(texts_of(found)),
        None => None,
    }
}

/// What the row `row` of a page holds: the link's text and target, all the
/// text of the two counts, the first text of size and date.
pub open spec fn row_at(row: Seq<char>, rules: Rules) -> RowView {
    RowView {
        link: match first_below(row, rules.name) {
            Some(found) => Some(
                LinkView { text: joined(texts_of(found)), href: attribute(found, "href"@) },
            ),
            None => None,
        },
        size: first_text_under(row, rules.size),
        seeders: whole_text(row, rules.seeds),
        leechers: whole_text(row, rules.leechers),
        date: first_text_under(row, rules.date),
        magnet: None,
    }
}

/// The rows of the page that the text `html` is, in the order in which
/// `scraper` gives them; none where the selectors cannot be read.
pub open spec fn rows_of(html: Seq<char>) -> Seq<RowView> {
    match listing_rules() {
        Some(rules) => matching(parsed(html), rules.row).map_values(
            |row: Seq<char>| row_at(row, rules),
        ),
        None => Seq::empty(),
    }
}

/// The six selectors, ready for use; `None` where one of them cannot be
/// read.
fn selectors() -> (r: Option<Selectors>)
    ensures
        match r {
            Some(selectors) => listing_rules() == Some(selectors.rules()),
            None => listing_rules() is None,
        },
{
    match (
        compile(ROW_SELECTOR),
        compile(NAME_SELECTOR),
        compile(SEEDS_SELECTOR),
        compile(LEECHERS_SELECTOR),
        compile(SIZE_SELECTOR),
        compile(DATE_SELECTOR),
    ) {
        (Some(row), Some(name), Some(seeds), Some(leechers), Some(size), Some(date)) => Some(
            Selectors { row, name, seeds, leechers, size, date },
        ),
        _ => None,
    }
}

/// What the row `element` holds: the link's text and target, all the text
/// of the two counts, the first text of size and date.
fn read_row(element: &ElementRef, selectors: &Selectors) -> (row: RawRow)
    ensures
        row@ == row_at(node(*element), selectors.rules()),
{
    let link = match select_first(element, &selectors.name) {
        Some(found) => Some(RawLink { text: text_of(&found), href: attribute_of(&found, "href") }),
        None => None,
    };
    let seeders = match select_first(element, &selectors.seeds) {
        Some(found) => Some(text_of(&found)),
        None => None,
    };
    let leechers = match select_first(element, &selectors.leechers) {
        Some(found) => Some(text_of(&found)),
        None => None,
    };
    let size = match select_first(element, &selectors.size) {
        Some(found) => first_text_of(&found),
        None => None,
    };
    let date = match select_first(element, &selectors.date) {
        Some(found) => first_text_of(&found),
        None => None,
    };
    RawRow { link, size, seeders, leechers, date, magnet: None }
}

/// The rows of the page, in the order in which `scraper` gives them.
pub(crate) fn read_rows(html: &str) -> (rows: Vec<RawRow>)
    ensures
        row_views(rows@) == rows_of(html@),
{
    let mut rows: Vec<RawRow> = Vec::new();
    let document = parse_document(html);
    match selectors() {
        Some(selectors) => {
            let elements = select_all(&document, &selectors.row);
            let ghost rules = selectors.rules();
            let ghost places = matching(parsed(html@), rules.row);
            let mut i: usize = 0;
            while i < elements.len()
                invariant
                    i <= elements.len(),
                    rules == selectors.rules(),
                    nodes(elements@) == places,
                    row_views(rows@) =~= places.take(i as int).map_values(
                        |row: Seq<char>| row_at(row, rules),
                    ),
                decreases elements.len() - i,
            {
                let row = read_row(&elements[i], &selectors);
                assert(nodes(elements@)[i as int] == node(elements@[i as int]));
                let ghost before = rows@;
                rows.push(row);
                assert(row_views(rows@) =~= row_views(before).push(row@));
                assert(places.take(i + 1).map_values(|row: Seq<char>| row_at(row, rules))
                    =~= places.take(i as int).map_values(
                    |row: Seq<char>| row_at(row, rules),
                ).push(row_at(places[i as int], rules)));
                i += 1;
            }
            assert(places.take(elements.len() as int) =~= places);
        },
        None => {
            assert(row_views(rows@) =~= Seq::empty());
        },
    }
    rows
}

/// An error of this adapter.
pub open spec fn failure(reason: ReasonView) -> Result<EntryView, ErrorView> {
    Err(error_of(NAME@, reason))
}

/// What one row gives, read in the year `year`. The fields are taken in the
/// order link, seeders, leechers, size, date; the first that is missing or
/// cannot be read decides the error. The magnet of the entry is the path of
/// the torrent's page.
pub open spec fn list_row(base_url: Seq<char>, row: RowView, year: int) -> Result<
    EntryView,
    ErrorView,
> {
    if row.link is None || row.link->0.href is None {
        failure(ReasonView::EntryLinkNotFound)
    } else if row.seeders is None {
        failure(ReasonView::EntrySeedersNotFound)
    } else if plain_count(row.seeders->0) is Err {
        failure(ReasonView::EntrySeedersInvalid { cause: plain_count(row.seeders->0)->Err_0 })
    } else if row.leechers is None {
        failure(ReasonView::EntryLeechersNotFound)
    } else if plain_count(row.leechers->0) is Err {
        failure(ReasonView::EntryLeechersInvalid { cause: plain_count(row.leechers->0)->Err_0 })
    } else if row.size is None {
        failure(ReasonView::EntrySizeNotFound)
    } else if byte_size_of(row.size->0) is Err {
        failure(ReasonView::EntrySizeInvalid { cause: byte_size_of(row.size->0)->Err_0 })
    } else if row.date is None {
        failure(ReasonView::EntryDateNotFound)
    } else if date_of(row.date->0, year) is Err {
        failure(ReasonView::EntryDateInvalid { cause: date_of(row.date->0, year)->Err_0 })
    } else {
        Ok(
            EntryView {
                name: trimmed(row.link->0.text),
                url: base_url + row.link->0.href->0,
                date: date_of(row.date->0, year)->Ok_0,
                size: byte_size_of(row.size->0)->Ok_0 as nat,
                seeders: plain_count(row.seeders->0)->Ok_0,
                leechers: plain_count(row.leechers->0)->Ok_0,
                magnet: row.link->0.href->0,
                origin: NAME@,
            },
        )
    }
}

/// What the rows give, each read for itself, in order.
pub open spec fn list_rows(base_url: Seq<char>, rows: Seq<RowView>, year: int) -> ResultView {
    ResultView::empty().with_outcomes(rows.map_values(|row: RowView| list_row(base_url, row, year)))
}

/// Whether `batch` is what the rows of the page `html` give in some year.
pub open spec fn is_listing_of(base_url: Seq<char>, html: Seq<char>, batch: ResultView) -> bool {
    exists|year: i32| batch == #[trigger] list_rows(base_url, rows_of(html), year as int)
}

fn fail(reason: IndexerErrorReason) -> (r: Result<IndexerEntry, IndexerError>)
    ensures
        outcome_view(r) == failure(reason@),
{
    Err(IndexerError::new(NAME, reason))
}

/// Reads one row in the year `year`.
pub fn parse_list_row(base_url: &str, row: &RawRow, year: i32) -> (r: Result<
    IndexerEntry,
    IndexerError,
>)
    ensures
        outcome_view(r) == list_row(base_url@, row@, year as int),
{
    let (text, href) = match &row.link {
        Some(RawLink { text, href: Some(href) }) => (text, href),
        _ => { return fail(IndexerErrorReason::EntryLinkNotFound); },
    };
    let seeders = match &row.seeders {
        None => { return fail(IndexerErrorReason::EntrySeedersNotFound); },
        Some(text) => match parse_plain(text.as_str()) {
            Ok(count) => count,
            Err(cause) => { return fail(IndexerErrorReason::EntrySeedersInvalid { cause }); },
        },
    };
    let leechers = match &row.leechers {
        None => { return fail(IndexerErrorReason::EntryLeechersNotFound); },
        Some(text) => match parse_plain(text.as_str()) {
            Ok(count) => count,
            Err(cause) => { return fail(IndexerErrorReason::EntryLeechersInvalid { cause }); },
        },
    };
    let size = match &row.size {
        None => { return fail(IndexerErrorReason::EntrySizeNotFound); },
        Some(text) => match read_byte_size(text.as_str()) {
            Ok(bytes) => bytes,
            Err(cause) => { return fail(IndexerErrorReason::EntrySizeInvalid { cause }); },
        },
    };
    let date = match &row.date {
        None => { return fail(IndexerErrorReason::EntryDateNotFound); },
        Some(text) => match parse_in_year(text.as_str(), year) {
            Ok(instant) => instant,
            Err(cause) => { return fail(IndexerErrorReason::EntryDateInvalid { cause }); },
        },
    };
    Ok(
        IndexerEntry {
            name: trim(text.as_str()),
            url: concat2(base_url, href.as_str()),
            date,
            size,
            seeders,
            leechers,
            magnet: href.clone(),
            origin: NAME,
        },
    )
}

/// Reads the rows in the year `year`, each for itself: a row that cannot be
/// read gives its error and leaves the others as they are.
pub fn parse_rows(base_url: &str, rows: &Vec<RawRow>, year: i32) -> (batch: IndexerResult)
    ensures
        batch@ == list_rows(base_url@, row_views(rows@), year as int),
{
    let mut batch = IndexerResult::default();
    let ghost outcomes = row_views(rows@).map_values(
        |row: RowView| list_row(base_url@, row, year as int),
    );
    let mut i: usize = 0;
    assert(outcomes.take(0) =~= Seq::empty());
    while i < rows.len()
        invariant
            i <= rows.len(),
            outcomes == row_views(rows@).map_values(
                |row: RowView| list_row(base_url@, row, year as int),
            ),
            batch@ == ResultView::empty().with_outcomes(outcomes.take(i as int)),
        decreases rows.len() - i,
    {
        let outcome = parse_list_row(base_url, &rows[i], year);
        batch.push_outcome(outcome);
        assert(outcomes.take(i + 1).drop_last() =~= outcomes.take(i as int));
        assert(outcomes.take(i + 1).last() == list_row(base_url@, rows@[i as int]@, year as int));
        i += 1;
    }
    assert(outcomes.take(rows.len() as int) =~= outcomes);
    batch
}

/// Reads a listing page in the year that the system clock shows: each row
/// of the page for itself, in the order in which `scraper` gives them.
pub fn parse(base_url: &str, html: &str) -> (batch: IndexerResult)
    ensures
        is_listing_of(base_url@, html@, batch@),
{
    let rows = read_rows(html);
    let year = current_year();
    let batch = parse_rows(base_url, &rows, year);
    assert(batch@ == list_rows(base_url@, rows_of(html@), year as int));
    batch
}

} // verus!
