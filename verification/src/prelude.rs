//! What every adapter and the manager exchange: categories, entries, errors
//! and batches of both.

use crate::numeric::ParseNumberError;
use crate::text::{chars_of, concat2, debug_string, debug_text, decimal_string, decimal_text};
use crate::time::{rfc2822_text, DateErrorKind, Timestamp};
use vstd::prelude::*;

verus! {

/// The kinds of content that a feed can be asked for.
#[derive(Clone, Copy, Debug, PartialEq, Eq, Structural)]
pub enum Category {
    Audio,
    Book,
    Movie,
    Music,
    Tv,
}

/// The category that the protocol code `code` stands for.
pub open spec fn category_of_code(code: nat) -> Option<Category> {
    if code == 2000 {
        Some(Category::Movie)
    } else if code == 3000 {
        Some(Category::Audio)
    } else if code == 5000 {
        Some(Category::Tv)
    } else if code == 7000 {
        Some(Category::Book)
    } else {
        None
    }
}

impl Category {
    /// The protocol's numeric code of the category.
    pub open spec fn code(self) -> nat {
        match self {
            Category::Audio | Category::Music => 3000,
            Category::Movie => 2000,
            Category::Tv => 5000,
            Category::Book => 7000,
        }
    }

    pub fn kind(&self) -> (k: u32)
        ensures
            k == self.code(),
    {
        match self {
            Category::Audio | Category::Music => 3000,
            Category::Movie => 2000,
            Category::Tv => 5000,
            Category::Book => 7000,
        }
    }

    /// The code in decimal.
    pub fn kind_str(&self) -> (text: &'static str)
        ensures
            text@ == decimal_text(self.code()),
    {
        proof {
            lemma_codes_in_decimal();
            reveal_strlit("2000");
            reveal_strlit("3000");
            reveal_strlit("5000");
            reveal_strlit("7000");
            assert("2000"@ =~= seq!['2', '0', '0', '0']);
            assert("3000"@ =~= seq!['3', '0', '0', '0']);
            assert("5000"@ =~= seq!['5', '0', '0', '0']);
            assert("7000"@ =~= seq!['7', '0', '0', '0']);
        }
        match self {
            Category::Audio | Category::Music => "3000",
            Category::Movie => "2000",
            Category::Tv => "5000",
            Category::Book => "7000",
        }
    }

    /// The category of a protocol code; any code but the four of the
    /// protocol is refused, with a message that names it.
    pub fn try_from(value: u32) -> (r: Result<Category, String>)
        ensures
            match r {
                Ok(c) => category_of_code(value as nat) == Some(c),
                Err(message) => category_of_code(value as nat) is None && message@
                    == "invalid category "@ + decimal_text(value as nat),
            },
    {
        if value == 2000 {
            Ok(Category::Movie)
        } else if value == 3000 {
            Ok(Category::Audio)
        } else if value == 5000 {
            Ok(Category::Tv)
        } else if value == 7000 {
            Ok(Category::Book)
        } else {
            let number = decimal_string(value as u64);
            Err(concat2("invalid category ", number.as_str()))
        }
    }

    /// The category of a protocol code written in decimal, digit for digit.
    pub fn from_str(s: &str) -> (r: Result<Category, String>)
        ensures
            match r {
                Ok(c) => s@ == decimal_text(c.code()) && category_of_code(c.code()) == Some(c),
                Err(message) => (forall|c: Category| s@ != decimal_text(c.code())) && message@
                    == "invalid category "@ + debug_text(s@),
            },
    {
        let v = chars_of(s);
        if v.len() == 4 && v[1] == '0' && v[2] == '0' && v[3] == '0' && (v[0] == '2' || v[0] == '3'
            || v[0] == '5' || v[0] == '7') {
            proof {
                lemma_codes_in_decimal();
                assert(s@ =~= seq![v@[0], '0', '0', '0']);
            }
            if v[0] == '2' {
                Ok(Category::Movie)
            } else if v[0] == '3' {
                Ok(Category::Audio)
            } else if v[0] == '5' {
                Ok(Category::Tv)
            } else {
                Ok(Category::Book)
            }
        } else {
            proof {
                lemma_codes_in_decimal();
            }
            let quoted = debug_string(s);
            Err(concat2("invalid category ", quoted.as_str()))
        }
    }
}

/// The four codes of the protocol, written in decimal.
pub proof fn lemma_codes_in_decimal()
    ensures
        decimal_text(2000) == seq!['2', '0', '0', '0'],
        decimal_text(3000) == seq!['3', '0', '0', '0'],
        decimal_text(5000) == seq!['5', '0', '0', '0'],
        decimal_text(7000) == seq!['7', '0', '0', '0'],
{
    reveal_with_fuel(decimal_text, 5);
    assert(decimal_text(2000) =~= seq!['2', '0', '0', '0']);
    assert(decimal_text(3000) =~= seq!['3', '0', '0', '0']);
    assert(decimal_text(5000) =~= seq!['5', '0', '0', '0']);
    assert(decimal_text(7000) =~= seq!['7', '0', '0', '0']);
}

/// A code that stands for a category is the code of that category, and only
/// 2000, 3000, 5000 and 7000 stand for one.
pub proof fn lemma_category_code_round_trip(code: nat)
    ensures
        category_of_code(code) matches Some(c) ==> c.code() == code,
        category_of_code(code) is Some <==> (code == 2000 || code == 3000 || code == 5000 || code
            == 7000),
{
}

/// One torrent that an adapter found.
#[derive(Clone, Debug)]
pub struct IndexerEntry {
    pub name: String,
    /// The page that describes the torrent.
    pub url: String,
    pub date: Timestamp,
    /// The size in bytes.
    pub size: u64,
    pub seeders: u64,
    pub leechers: u64,
    pub magnet: String,
    /// The adapter that found it.
    pub origin: &'static str,
}

/// An entry as plain values.
pub struct EntryView {
    pub name: Seq<char>,
    pub url: Seq<char>,
    pub date: int,
    pub size: nat,
    pub seeders: nat,
    pub leechers: nat,
    pub magnet: Seq<char>,
    pub origin: Seq<char>,
}

impl View for IndexerEntry {
    type V = EntryView;

    open spec fn view(&self) -> EntryView {
        EntryView {
            name: self.name@,
            url: self.url@,
            date: self.date@,
            size: self.size as nat,
            seeders: self.seeders as nat,
            leechers: self.leechers as nat,
            magnet: self.magnet@,
            origin: self.origin@,
        }
    }
}

impl IndexerEntry {
    /// The date as the feed writes it.
    pub fn date_str(&self) -> (text: String)
        ensures
            text@ == rfc2822_text(self@.date),
    {
        self.date.to_rfc2822()
    }

    /// The size in bytes, in decimal.
    pub fn size_str(&self) -> (text: String)
        ensures
            text@ == decimal_text(self@.size),
    {
        decimal_string(self.size)
    }
}

/// Why an adapter gave no entry, or none at all.
#[derive(Clone, Debug)]
#[allow(inconsistent_fields)]
pub enum IndexerErrorReason {
    EntryNameNotFound,
    EntryLinkNotFound,
    EntrySizeNotFound,
    EntrySizeInvalid { cause: String },
    EntrySeedersNotFound,
    EntrySeedersInvalid { cause: ParseNumberError },
    EntryLeechersNotFound,
    EntryLeechersInvalid { cause: ParseNumberError },
    EntryDateNotFound,
    EntryDateInvalid { cause: DateErrorKind },
    EntryMagnetNotFound,
    UnableToQuery { url: String, cause: String },
    UnableToRead { url: String, cause: String },
    UnableToBuildUrl { cause: String },
}

/// A reason as plain values.
#[allow(inconsistent_fields)]
pub enum ReasonView {
    EntryNameNotFound,
    EntryLinkNotFound,
    EntrySizeNotFound,
    EntrySizeInvalid { cause: Seq<char> },
    EntrySeedersNotFound,
    EntrySeedersInvalid { cause: ParseNumberError },
    EntryLeechersNotFound,
    EntryLeechersInvalid { cause: ParseNumberError },
    EntryDateNotFound,
    EntryDateInvalid { cause: DateErrorKind },
    EntryMagnetNotFound,
    UnableToQuery { url: Seq<char>, cause: Seq<char> },
    UnableToRead { url: Seq<char>, cause: Seq<char> },
    UnableToBuildUrl { cause: Seq<char> },
}

impl View for IndexerErrorReason {
    type V = ReasonView;

    open spec fn view(&self) -> ReasonView {
        match self {
            IndexerErrorReason::EntryNameNotFound => ReasonView::EntryNameNotFound,
            IndexerErrorReason::EntryLinkNotFound => ReasonView::EntryLinkNotFound,
            IndexerErrorReason::EntrySizeNotFound => ReasonView::EntrySizeNotFound,
            IndexerErrorReason::EntrySizeInvalid { cause } => ReasonView::EntrySizeInvalid {
                cause: cause@,
            },
            IndexerErrorReason::EntrySeedersNotFound => ReasonView::EntrySeedersNotFound,
            IndexerErrorReason::EntrySeedersInvalid { cause } => ReasonView::EntrySeedersInvalid {
                cause: *cause,
            },
            IndexerErrorReason::EntryLeechersNotFound => ReasonView::EntryLeechersNotFound,
            IndexerErrorReason::EntryLeechersInvalid { cause } => ReasonView::EntryLeechersInvalid {
                cause: *cause,
            },
            IndexerErrorReason::EntryDateNotFound => ReasonView::EntryDateNotFound,
            IndexerErrorReason::EntryDateInvalid { cause } => ReasonView::EntryDateInvalid {
                cause: *cause,
            },
            IndexerErrorReason::EntryMagnetNotFound => ReasonView::EntryMagnetNotFound,
            IndexerErrorReason::UnableToQuery { url, cause } => ReasonView::UnableToQuery {
                url: url@,
                cause: cause@,
            },
            IndexerErrorReason::UnableToRead { url, cause } => ReasonView::UnableToRead {
                url: url@,
                cause: cause@,
            },
            IndexerErrorReason::UnableToBuildUrl { cause } => ReasonView::UnableToBuildUrl {
                cause: cause@,
            },
        }
    }
}

/// A failure of one adapter: of one row, of one page or of one request.
#[derive(Clone, Debug)]
pub struct IndexerError {
    pub origin: &'static str,
    pub reason: IndexerErrorReason,
}

/// An error as plain values.
pub struct ErrorView {
    pub origin: Seq<char>,
    pub reason: ReasonView,
}

impl View for IndexerError {
    type V = ErrorView;

    open spec fn view(&self) -> ErrorView {
        ErrorView { origin: self.origin@, reason: self.reason@ }
    }
}

/// An error of `origin` for the reason `reason`.
pub open spec fn error_of(origin: Seq<char>, reason: ReasonView) -> ErrorView {
    ErrorView { origin, reason }
}

impl IndexerError {
    pub fn new(origin: &'static str, reason: IndexerErrorReason) -> (error: Self)
        ensures
            error@ == (ErrorView { origin: origin@, reason: reason@ }),
    {
        Self { origin, reason }
    }
}

/// The entries of `s` as plain values.
pub open spec fn entry_views(s: Seq<IndexerEntry>) -> Seq<EntryView> {
    s.map_values(|e: IndexerEntry| e@)
}

/// The errors of `s` as plain values.
pub open spec fn error_views(s: Seq<IndexerError>) -> Seq<ErrorView> {
    s.map_values(|e: IndexerError| e@)
}

/// What one adapter call gives, or several merged: the entries found and
/// the failures met, each in the order in which they came.
#[derive(Clone, Debug)]
pub struct IndexerResult {
    pub entries: Vec<IndexerEntry>,
    pub errors: Vec<IndexerError>,
}

/// A batch as plain values.
pub struct ResultView {
    pub entries: Seq<EntryView>,
    pub errors: Seq<ErrorView>,
}

impl ResultView {
    /// The batch without entries or errors.
    pub open spec fn empty() -> ResultView {
        ResultView { entries: Seq::empty(), errors: Seq::empty() }
    }

    /// The entries of `self` followed by those of `other`, and the errors
    /// likewise.
    pub open spec fn merge(self, other: ResultView) -> ResultView {
        ResultView { entries: self.entries + other.entries, errors: self.errors + other.errors }
    }

    /// The batch with `entry` behind the entries.
    pub open spec fn with_entry(self, entry: EntryView) -> ResultView {
        ResultView { entries: self.entries.push(entry), errors: self.errors }
    }

    /// The batch with `error` behind the errors.
    pub open spec fn with_error(self, error: ErrorView) -> ResultView {
        ResultView { entries: self.entries, errors: self.errors.push(error) }
    }
}

impl View for IndexerResult {
    type V = ResultView;

    open spec fn view(&self) -> ResultView {
        ResultView { entries: entry_views(self.entries@), errors: error_views(self.errors@) }
    }
}

impl Default for IndexerResult {
    fn default() -> (batch: Self)
        ensures
            batch@ == ResultView::empty(),
    {
        let batch = Self { entries: Vec::new(), errors: Vec::new() };
        assert(batch@.entries =~= Seq::empty());
        assert(batch@.errors =~= Seq::empty());
        batch
    }
}

impl IndexerResult {
    /// The batch of these entries, without errors.
    pub fn from_entries(entries: Vec<IndexerEntry>) -> (batch: Self)
        ensures
            batch@ == (ResultView { entries: entry_views(entries@), errors: Seq::empty() }),
    {
        let batch = Self { entries, errors: Vec::new() };
        assert(batch@.errors =~= Seq::empty());
        batch
    }

    /// The batch of this one error.
    pub fn from_error(value: IndexerError) -> (batch: Self)
        ensures
            batch@ == ResultView::empty().with_error(value@),
    {
        let mut errors: Vec<IndexerError> = Vec::new();
        errors.push(value);
        let batch = Self { entries: Vec::new(), errors };
        assert(batch@.entries =~= Seq::empty());
        assert(batch@.errors =~= Seq::<ErrorView>::empty().push(value@));
        batch
    }

    /// Puts `entry` behind the entries.
    pub fn push_entry(&mut self, entry: IndexerEntry)
        ensures
            final(self)@ == old(self)@.with_entry(entry@),
    {
        self.entries.push(entry);
        assert(self@.entries =~= old(self)@.entries.push(entry@));
    }

    /// Puts `error` behind the errors.
    pub fn push_error(&mut self, error: IndexerError)
        ensures
            final(self)@ == old(self)@.with_error(error@),
    {
        self.errors.push(error);
        assert(self@.errors =~= old(self)@.errors.push(error@));
    }

    /// The entries of `self` followed by those of `other`, and the errors
    /// likewise.
    pub fn merge(self, other: IndexerResult) -> (merged: Self)
        ensures
            merged@ == self@.merge(other@),
    {
        let mut merged = self;
        let mut rest = other;
        merged.entries.append(&mut rest.entries);
        merged.errors.append(&mut rest.errors);
        assert(merged@.entries =~= self@.entries + other@.entries);
        assert(merged@.errors =~= self@.errors + other@.errors);
        merged
    }
}

/// A text, or the error for none, as plain values.
pub open spec fn text_outcome(r: Result<String, IndexerError>) -> Result<Seq<char>, ErrorView> {
    match r {
        Ok(text) => Ok(text@),
        Err(error) => Err(error@),
    }
}

/// An adapter of a site as plain values: its name and where the site is
/// found.
pub struct SiteView {
    pub name: Seq<char>,
    pub base_url: Seq<char>,
}

/// What reading one row gives: an entry, or the reason for none.
pub open spec fn outcome_view(outcome: Result<IndexerEntry, IndexerError>) -> Result<
    EntryView,
    ErrorView,
> {
    match outcome {
        Ok(entry) => Ok(entry@),
        Err(error) => Err(error@),
    }
}

/// The outcomes of `s` as plain values.
pub open spec fn outcome_views(s: Seq<Result<IndexerEntry, IndexerError>>) -> Seq<
    Result<EntryView, ErrorView>,
> {
    s.map_values(|outcome: Result<IndexerEntry, IndexerError>| outcome_view(outcome))
}

impl ResultView {
    /// The batch with one outcome added: an entry behind the entries, an
    /// error behind the errors.
    pub open spec fn with_outcome(self, outcome: Result<EntryView, ErrorView>) -> ResultView {
        match outcome {
            Ok(entry) => self.with_entry(entry),
            Err(error) => self.with_error(error),
        }
    }

    /// The batch with the outcomes added one by one, in order: no outcome
    /// changes what another one adds.
    pub open spec fn with_outcomes(self, outcomes: Seq<Result<EntryView, ErrorView>>) -> ResultView
        decreases outcomes.len(),
    {
        if outcomes.len() == 0 {
            self
        } else {
            self.with_outcomes(outcomes.drop_last()).with_outcome(outcomes.last())
        }
    }
}

impl IndexerResult {
    /// Adds one outcome.
    pub fn push_outcome(&mut self, outcome: Result<IndexerEntry, IndexerError>)
        ensures
            final(self)@ == old(self)@.with_outcome(outcome_view(outcome)),
    {
        match outcome {
            Ok(entry) => self.push_entry(entry),
            Err(error) => self.push_error(error),
        }
    }

    /// The batch that holds `errors` and then takes the outcomes in order.
    pub fn from_outcomes(errors: Vec<IndexerError>, outcomes: Vec<
        Result<IndexerEntry, IndexerError>,
    >) -> (batch: Self)
        ensures
            batch@ == (ResultView {
                entries: Seq::empty(),
                errors: error_views(errors@),
            }).with_outcomes(outcome_views(outcomes@)),
    {
        let mut batch = Self { entries: Vec::new(), errors };
        assert(batch@.entries =~= Seq::empty());
        let ghost start = batch@;
        let ghost all = outcomes@;
        let ghost views = outcome_views(all);
        assert(views.take(0) =~= Seq::empty());
        for outcome in it: outcomes
            invariant
                it.seq() == all,
                views == outcome_views(all),
                batch@ == start.with_outcomes(views.take(it.index())),
        {
            batch.push_outcome(outcome);
            assert(views.take(it.index() + 1).drop_last() =~= views.take(it.index()));
            assert(views.take(it.index() + 1).last() == outcome_view(all[it.index()]));
        }
        assert(views.take(all.len() as int) =~= views);
        batch
    }
}

/// The count of entries and errors after the outcomes are taken: each
/// outcome adds one entry or one error, whatever the others are.
pub proof fn lemma_outcomes_counted(start: ResultView, outcomes: Seq<Result<EntryView, ErrorView>>)
    ensures
        start.with_outcomes(outcomes).entries.len() == start.entries.len() + outcomes.filter(
            |o: Result<EntryView, ErrorView>| o is Ok,
        ).len(),
        start.with_outcomes(outcomes).errors.len() == start.errors.len() + outcomes.filter(
            |o: Result<EntryView, ErrorView>| o is Err,
        ).len(),
    decreases outcomes.len(),
{
    if outcomes.len() > 0 {
        let rest = outcomes.drop_last();
        lemma_outcomes_counted(start, rest);
        assert(rest.push(outcomes.last()) =~= outcomes);
        rest.lemma_filter_len_push(|o: Result<EntryView, ErrorView>| o is Ok, outcomes.last());
        rest.lemma_filter_len_push(|o: Result<EntryView, ErrorView>| o is Err, outcomes.last());
    } else {
        assert(outcomes.filter(|o: Result<EntryView, ErrorView>| o is Ok).len() == 0) by {
            outcomes.lemma_filter_len(|o: Result<EntryView, ErrorView>| o is Ok);
        }
        assert(outcomes.filter(|o: Result<EntryView, ErrorView>| o is Err).len() == 0) by {
            outcomes.lemma_filter_len(|o: Result<EntryView, ErrorView>| o is Err);
        }
    }
}

/// Merging is associative.
pub proof fn lemma_merge_associative(a: ResultView, b: ResultView, c: ResultView)
    ensures
        a.merge(b).merge(c) == a.merge(b.merge(c)),
{
    assert(a.merge(b).merge(c).entries =~= a.merge(b.merge(c)).entries);
    assert(a.merge(b).merge(c).errors =~= a.merge(b.merge(c)).errors);
}

/// Merging two batches in either order gives the same entries and the same
/// errors, but for their order.
pub proof fn lemma_merge_commutes_but_for_order(a: ResultView, b: ResultView)
    ensures
        a.merge(b).entries.to_multiset() == b.merge(a).entries.to_multiset(),
        a.merge(b).errors.to_multiset() == b.merge(a).errors.to_multiset(),
{
    vstd::seq_lib::lemma_multiset_commutative(a.entries, b.entries);
    vstd::seq_lib::lemma_multiset_commutative(b.entries, a.entries);
    vstd::seq_lib::lemma_multiset_commutative(a.errors, b.errors);
    vstd::seq_lib::lemma_multiset_commutative(b.errors, a.errors);
    assert(a.entries.to_multiset().add(b.entries.to_multiset()) =~= b.entries.to_multiset().add(
        a.entries.to_multiset(),
    ));
    assert(a.errors.to_multiset().add(b.errors.to_multiset()) =~= b.errors.to_multiset().add(
        a.errors.to_multiset(),
    ));
}

/// The empty batch is the identity of merging, on either side.
pub proof fn lemma_merge_identity(a: ResultView)
    ensures
        a.merge(ResultView::empty()) == a,
        ResultView::empty().merge(a) == a,
{
    assert(a.merge(ResultView::empty()).entries =~= a.entries);
    assert(a.merge(ResultView::empty()).errors =~= a.errors);
    assert(ResultView::empty().merge(a).entries =~= a.entries);
    assert(ResultView::empty().merge(a).errors =~= a.errors);
}

} // verus!
