//! The listing page, read card by card.

use super::date::date_of;
use super::NAME;
use crate::numeric::{parse_short, short_count};
use crate::page::{
    attribute, attribute_of, beside, canonical, compile, first_below, first_text, joined,
    matching, node, nodes, parse_document, parsed, row_views, rule, select_all, select_first,
    text_beside, text_of, texts_of, LinkView, RawLink, RawRow, RowView,
};
use crate::prelude::{
    error_of, outcome_view, EntryView, ErrorView, IndexerEntry, IndexerError, IndexerErrorReason,
    IndexerResult, ReasonView, ResultView,
};
use crate::size::{byte_size_of, read_byte_size};
use crate::text::{chars_of, concat2, trim, trimmed};
use scraper::{ElementRef, Selector};
use vstd::prelude::*;

verus! {

pub const ROW_SELECTOR: &'static str = ".card.search-result";

pub const SEARCH_ROW_NAME_SELECTOR: &'static str = "h5.title a";

pub const SEARCH_ROW_SIZE_SELECTOR: &'static str = ".stats div:nth-child(2)";

pub const SEARCH_ROW_SEEDER_SELECTOR: &'static str = ".stats div:nth-child(3)";

pub const SEARCH_ROW_LEECHER_SELECTOR: &'static str = ".stats div:nth-child(4)";

pub const SEARCH_ROW_DATE_SELECTOR: &'static str = ".stats img[alt=\"Date\"]";

pub const SEARCH_ROW_MAGNET_SELECTOR: &'static str = "a.dl-magnet";

/// Whether `c` parts the words of a name: a space, a tab or a line feed.
pub open spec fn is_gap(c: char) -> bool {
    c == '\n' || c == ' ' || c == '\t'
}

/// The words of `s`, each parted from the next by one space: the name
/// without the line breaks and runs of blanks of the page.
pub open spec fn sanitized(s: Seq<char>) -> Seq<char>
    decreases s.len(),
{
    if s.len() == 0 {
        Seq::empty()
    } else if is_gap(s.last()) {
        sanitized(s.drop_last())
    } else if sanitized(s.drop_last()).len() > 0 && is_gap(s[s.len() - 2]) {
        sanitized(s.drop_last()).push(' ').push(s.last())
    } else {
        sanitized(s.drop_last()).push(s.last())
    }
}

/// The words of `input`, each parted from the next by one space.
pub fn sanitize_name(input: &str) -> (name: String)
    ensures
        name@ == sanitized(input@),
{
    let v = chars_of(input);
    let mut name = String::new();
    let mut started = false;
    let mut i: usize = 0;
    assert(v@.take(0) =~= Seq::<char>::empty());
    while i < v.len()
        invariant
            i <= v.len(),
            name@ == sanitized(v@.take(i as int)),
            started == (name@.len() > 0),
        decreases v.len() - i,
    {
        let c = v[i];
        assert(v@.take(i + 1).drop_last() =~= v@.take(i as int));
        assert(v@.take(i + 1).last() == c);
        if !(c == '\n' || c == ' ' || c == '\t') {
            if i > 0 && started && (v[i - 1] == '\n' || v[i - 1] == ' ' || v[i - 1] == '\t') {
                assert(v@.take(i + 1)[i - 1] == v@[i - 1]);
                name.push(' ');
            }
            name.push(c);
            started = true;
        }
        i += 1;
    }
    assert(v@.take(v.len() as int) =~= v@);
    name
}

/// The selectors of a listing page, ready for use.
struct Selectors {
    row: Selector,
    name: Selector,
    size: Selector,
    seeder: Selector,
    leecher: Selector,
    date: Selector,
    magnet: Selector,
}

/// The rules by which a listing page is read: which elements are cards,
/// and where in a card each field stands.
pub struct Rules {
    pub row: Seq<char>,
    pub name: Seq<char>,
    pub size: Seq<char>,
    pub seeder: Seq<char>,
    pub leecher: Seq<char>,
    pub date: Seq<char>,
    pub magnet: Seq<char>,
}

impl Selectors {
    /// The rules that the selectors hold.
    spec fn rules(self) -> Rules {
        Rules {
            row: rule(self.row),
            name: rule(self.name),
            size: rule(self.size),
            seeder: rule(self.seeder),
            leecher: rule(self.leecher),
            date: rule(self.date),
            magnet: rule(self.magnet),
        }
    }
}

/// The rules of a listing page, as the seven selectors above are read;
/// `None` where one of them is no selector.
pub open spec fn listing_rules() -> Option<Rules> {
    match (
        canonical(ROW_SELECTOR@),
        canonical(SEARCH_ROW_NAME_SELECTOR@),
        canonical(SEARCH_ROW_SIZE_SELECTOR@),
        canonical(SEARCH_ROW_SEEDER_SELECTOR@),
        canonical(SEARCH_ROW_LEECHER_SELECTOR@),
        canonical(SEARCH_ROW_DATE_SELECTOR@),
        canonical(SEARCH_ROW_MAGNET_SELECTOR@),
    ) {
        (
            Some(row),
            Some(name),
            Some(size),
            Some(seeder),
            Some(leecher),
            Some(date),
            Some(magnet),
        ) => Some(Rules { row, name, size, seeder, leecher, date, magnet }),
        _ => None,
    }
}

/// All the text below the first element under `card` that matches `rule`.
pub open spec fn whole_text(card: Seq<char>, rule: Seq<char>) -> Option<Seq<char>> {
    match first_below(card, rule) {
        Some(found) => Some(joined(texts_of(found))),
        None => None,
    }
}

/// What the card `card` of a page holds: the link's text and target, all
/// the text of size and counts, the text beside the date's icon, and where
/// the magnet link leads.
pub open spec fn row_at(card: Seq<char>, rules: Rules) -> RowView {
    RowView {
        link: match first_below(card, rules.name) {
            Some(found) => Some(
                LinkView { text: joined(texts_of(found)), href: attribute(found, "href"@) },
            ),
            None => None,
        },
        size: whole_text(card, rules.size),
        seeders: whole_text(card, rules.seeder),
        leechers: whole_text(card, rules.leecher),
        date: match first_below(card, rules.date) {
            Some(found) => first_text(beside(found)),
            None => None,
        },
        magnet: match first_below(card, rules.magnet) {
            Some(found) => attribute(found, "href"@),
            None => None,
        },
    }
}

/// The cards of the page that the text `html` is, in the order in
/// which `scraper` gives them; none where the selectors cannot be read.
pub open spec fn rows_of(html: Seq<char>) -> Seq<RowView> {
    match listing_rules() {
        Some(rules) => matching(parsed(html), rules.row).map_values(
            |card: Seq<char>| row_at(card, rules),
        ),
        None => Seq::empty(),
    }
}

/// The seven selectors, ready for use; `None` where one of them cannot be
/// read.
fn selectors() -> (r: Option<Selectors>)
    ensures
        match r {
            Some(selectors) => listing_rules() == Some(selectors.rules()),
            None => listing_rules() is None,
        },
{
    match (
        compile(ROW_SELECTOR),
        compile(SEARCH_ROW_NAME_SELECTOR),
        compile(SEARCH_ROW_SIZE_SELECTOR),
        compile(SEARCH_ROW_SEEDER_SELECTOR),
        compile(SEARCH_ROW_LEECHER_SELECTOR),
        compile(SEARCH_ROW_DATE_SELECTOR),
        compile(SEARCH_ROW_MAGNET_SELECTOR),
    ) {
        (
            Some(row),
            Some(name),
            Some(size),
            Some(seeder),
            Some(leecher),
            Some(date),
            Some(magnet),
        ) => Some(Selectors { row, name, size, seeder, leecher, date, magnet }),
        _ => None,
    }
}

/// What the card `element` holds: the link's text and target, all the text
/// of size and counts, the text beside the date's icon, and where the
/// magnet link leads.
fn read_row(element: &ElementRef, selectors: &Selectors) -> (row: RawRow)
    ensures
        row@ == row_at(node(*element), selectors.rules()),
{
    let link = match select_first(element, &selectors.name) {
        Some(found) => Some(RawLink { text: text_of(&found), href: attribute_of(&found, "href") }),
        None => None,
    };
    let size = match select_first(element, &selectors.size) {
        Some(found) => Some(text_of(&found)),
        None => None,
    };
    let seeders = match select_first(element, &selectors.seeder) {
        Some(found) => Some(text_of(&found)),
        None => None,
    };
    let leechers = match select_first(element, &selectors.leecher) {
        Some(found) => Some(text_of(&found)),
        None => None,
    };
    let date = match select_first(element, &selectors.date) {
        Some(found) => text_beside(&found),
        None => None,
    };
    let magnet = match select_first(element, &selectors.magnet) {
        Some(found) => attribute_of(&found, "href"),
        None => None,
    };
    RawRow { link, size, seeders, leechers, date, magnet }
}

/// The cards of the page, in the order in which `scraper` gives them.
pub(crate) fn read_rows(html: &str) -> (rows: Vec<RawRow>)
    ensures
        row_views(rows@) == rows_of(html@),
{
    let mut rows: Vec<RawRow> = Vec::new();
    let document = parse_document(html);
    match selectors() {
        Some(selectors) => {
            let elements = select_all(&document, &selectors.row);
            let ghost rules = selectors.rules();
            let ghost places = matching(parsed(html@), rules.row);
            let mut i: usize = 0;
            while i < elements.len()
                invariant
                    i <= elements.len(),
                    rules == selectors.rules(),
                    nodes(elements@) == places,
                    row_views(rows@) =~= places.take(i as int).map_values(
                        |card: Seq<char>| row_at(card, rules),
                    ),
                decreases elements.len() - i,
            {
                let row = read_row(&elements[i], &selectors);
                assert(nodes(elements@)[i as int] == node(elements@[i as int]));
                let ghost before = rows@;
                rows.push(row);
                assert(row_views(rows@) =~= row_views(before).push(row@));
                assert(places.take(i + 1).map_values(|card: Seq<char>| row_at(card, rules))
                    =~= places.take(i as int).map_values(
                    |card: Seq<char>| row_at(card, rules),
                ).push(row_at(places[i as int], rules)));
                i += 1;
            }
            assert(places.take(elements.len() as int) =~= places);
        },
        None => {
            assert(row_views(rows@) =~= Seq::empty());
        },
    }
    rows
}

/// An error of this adapter.
pub open spec fn failure(reason: ReasonView) -> Result<EntryView, ErrorView> {
    Err(error_of(NAME@, reason))
}

/// What one card gives. The fields are taken in the order name and link,
/// size, seeders, leechers, date, magnet; the first that is missing or
/// cannot be read decides the error. Size and counts are read without the
/// white space around them, and the counts may be abbreviated.
pub open spec fn row_result(base_url: Seq<char>, row: RowView) -> Result<EntryView, ErrorView> {
    if row.link is None {
        failure(ReasonView::EntryNameNotFound)
    } else if row.link->0.href is None {
        failure(ReasonView::EntryLinkNotFound)
    } else if row.size is None {
        failure(ReasonView::EntrySizeNotFound)
    } else if byte_size_of(trimmed(row.size->0)) is Err {
        failure(ReasonView::EntrySizeInvalid { cause: byte_size_of(trimmed(row.size->0))->Err_0 })
    } else if row.seeders is None {
        failure(ReasonView::EntrySeedersNotFound)
    } else if short_count(row.seeders->0) is Err {
        failure(ReasonView::EntrySeedersInvalid { cause: short_count(row.seeders->0)->Err_0 })
    } else if row.leechers is None {
        failure(ReasonView::EntryLeechersNotFound)
    } else if short_count(row.leechers->0) is Err {
        failure(ReasonView::EntryLeechersInvalid { cause: short_count(row.leechers->0)->Err_0 })
    } else if row.date is None {
        failure(ReasonView::EntryDateNotFound)
    } else if date_of(row.date->0) is Err {
        failure(ReasonView::EntryDateInvalid { cause: date_of(row.date->0)->Err_0 })
    } else if row.magnet is None {
        failure(ReasonView::EntryMagnetNotFound)
    } else {
        Ok(
            EntryView {
                name: sanitized(row.link->0.text),
                url: base_url + row.link->0.href->0,
                date: date_of(row.date->0)->Ok_0,
                size: byte_size_of(trimmed(row.size->0))->Ok_0 as nat,
                seeders: short_count(row.seeders->0)->Ok_0,
                leechers: short_count(row.leechers->0)->Ok_0,
                magnet: row.magnet->0,
                origin: NAME@,
            },
        )
    }
}

/// What the cards give, each read for itself, in order.
pub open spec fn rows_result(base_url: Seq<char>, rows: Seq<RowView>) -> ResultView {
    ResultView::empty().with_outcomes(rows.map_values(|row: RowView| row_result(base_url, row)))
}

/// Whether `batch` is what the cards of the page `html` give.
pub open spec fn is_listing_of(base_url: Seq<char>, html: Seq<char>, batch: ResultView) -> bool {
    batch == rows_result(base_url, rows_of(html))
}

fn fail(reason: IndexerErrorReason) -> (r: Result<IndexerEntry, IndexerError>)
    ensures
        outcome_view(r) == failure(reason@),
{
    Err(IndexerError::new(NAME, reason))
}

/// Reads one card.
pub fn parse_row_result(base_url: &str, row: &RawRow) -> (r: Result<IndexerEntry, IndexerError>)
    ensures
        outcome_view(r) == row_result(base_url@, row@),
{
    let (text, href) = match &row.link {
        None => { return fail(IndexerErrorReason::EntryNameNotFound); },
        Some(RawLink { text, href }) => match href {
            None => { return fail(IndexerErrorReason::EntryLinkNotFound); },
            Some(href) => (text, href),
        },
    };
    let size = match &row.size {
        None => { return fail(IndexerErrorReason::EntrySizeNotFound); },
        Some(text) => {
            let inner = trim(text.as_str());
            match read_byte_size(inner.as_str()) {
                Ok(bytes) => bytes,
                Err(cause) => { return fail(IndexerErrorReason::EntrySizeInvalid { cause }); },
            }
        },
    };
    let seeders = match &row.seeders {
        None => { return fail(IndexerErrorReason::EntrySeedersNotFound); },
        Some(text) => match parse_short(text.as_str()) {
            Ok(count) => count,
            Err(cause) => { return fail(IndexerErrorReason::EntrySeedersInvalid { cause }); },
        },
    };
    let leechers = match &row.leechers {
        None => { return fail(IndexerErrorReason::EntryLeechersNotFound); },
        Some(text) => match parse_short(text.as_str()) {
            Ok(count) => count,
            Err(cause) => { return fail(IndexerErrorReason::EntryLeechersInvalid { cause }); },
        },
    };
    let date = match &row.date {
        None => { return fail(IndexerErrorReason::EntryDateNotFound); },
        Some(text) => match super::date::parse(text.as_str()) {
            Ok(instant) => instant,
            Err(cause) => { return fail(IndexerErrorReason::EntryDateInvalid { cause }); },
        },
    };
    let magnet = match &row.magnet {
        None => { return fail(IndexerErrorReason::EntryMagnetNotFound); },
        Some(magnet) => magnet.clone(),
    };
    Ok(
        IndexerEntry {
            name: sanitize_name(text.as_str()),
            url: concat2(base_url, href.as_str()),
            date,
            size,
            seeders,
            leechers,
            magnet,
            origin: NAME,
        },
    )
}

/// Reads the cards, each for itself: a card that cannot be read gives its
/// error and leaves the others as they are.
pub fn parse_rows(base_url: &str, rows: &Vec<RawRow>) -> (batch: IndexerResult)
    ensures
        batch@ == rows_result(base_url@, row_views(rows@)),
{
    let mut batch = IndexerResult::default();
    let ghost outcomes = row_views(rows@).map_values(|row: RowView| row_result(base_url@, row));
    let mut i: usize = 0;
    assert(outcomes.take(0) =~= Seq::empty());
    while i < rows.len()
        invariant
            i <= rows.len(),
            outcomes == row_views(rows@).map_values(|row: RowView| row_result(base_url@, row)),
            batch@ == ResultView::empty().with_outcomes(outcomes.take(i as int)),
        decreases rows.len() - i,
    {
        let outcome = parse_row_result(base_url, &rows[i]);
        batch.push_outcome(outcome);
        assert(outcomes.take(i + 1).drop_last() =~= outcomes.take(i as int));
        assert(outcomes.take(i + 1).last() == row_result(base_url@, rows@[i as int]@));
        i += 1;
    }
    assert(outcomes.take(rows.len() as int) =~= outcomes);
    batch
}

/// Reads a listing page: each card of the page for itself, in the order in
/// which `scraper` gives them.
pub fn parse(base_url: &str, html: &str) -> (batch: IndexerResult)
    ensures
        batch@ == rows_result(base_url@, rows_of(html@)),
{
    let rows = read_rows(html);
    parse_rows(base_url, &rows)
}

} // verus!
