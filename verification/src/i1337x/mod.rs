//! The adapter of 1337x: listing pages that name, for each torrent, the page
//! on which its magnet link stands. An entry is first read from the listing
//! with that page's path in place of the magnet, then resolved with what the
//! page holds.

pub mod date;
pub mod search;
pub mod torrent;

use crate::prelude::{
    error_views, outcome_view, outcome_views, Category, EntryView, ErrorView, IndexerEntry,
    IndexerError, IndexerResult, ResultView, SiteView,
};
use crate::text::concat2;
use crate::url::{encode, percent_encoded};
use vstd::prelude::*;

verus! {

/// The name under which the adapter signs its entries and errors.
pub const NAME: &'static str = "1337x";

/// Where the site is found where nothing else is configured.
pub const BASE_URL: &'static str = "https://1337x.to";

/// The settings of the adapter.
#[derive(Debug)]
pub struct Indexer1337xConfig {
    pub base_url: String,
}

/// The adapter.
#[derive(Debug)]
pub struct Indexer1337x {
    name: String,
    base_url: String,
}

impl View for Indexer1337x {
    type V = SiteView;

    closed spec fn view(&self) -> SiteView {
        SiteView { name: self.name@, base_url: self.base_url@ }
    }
}

impl Indexer1337xConfig {
    pub fn default_base_url() -> (url: String)
        ensures
            url@ == BASE_URL@,
    {
        String::from_str(BASE_URL)
    }

    /// The adapter of these settings, called `name`.
    pub fn build(self, name: String) -> (indexer: Indexer1337x)
        ensures
            indexer@ == (SiteView { name: name@, base_url: self.base_url@ }),
    {
        Indexer1337x { name, base_url: self.base_url }
    }
}

impl Default for Indexer1337x {
    fn default() -> (indexer: Self)
        ensures
            indexer@ == (SiteView { name: NAME@, base_url: BASE_URL@ }),
    {
        Self::new(BASE_URL)
    }
}

/// The path of the first page of results for `query`.
pub open spec fn search_path_of(query: Seq<char>) -> Seq<char> {
    "/search/"@ + percent_encoded(query) + "/1/"@
}

/// The path of the first page of a category.
pub open spec fn feed_path_of(category: Category) -> Seq<char> {
    match category {
        Category::Audio | Category::Music => "/cat/Music/1/"@,
        Category::Movie => "/cat/Movies/1/"@,
        Category::Tv => "/cat/TV/1/"@,
        Category::Book => "/cat/Other/1/"@,
    }
}

/// `entry` with `magnet` as its magnet link.
pub open spec fn with_magnet(entry: EntryView, magnet: Seq<char>) -> EntryView {
    EntryView { magnet, ..entry }
}

impl Indexer1337x {
    pub fn new(base_url: &str) -> (indexer: Self)
        ensures
            indexer@ == (SiteView { name: NAME@, base_url: base_url@ }),
    {
        Self { name: String::from_str(NAME), base_url: String::from_str(base_url) }
    }

    /// The name that the adapter was given.
    pub fn name(&self) -> (name: &str)
        ensures
            name@ == self@.name,
    {
        self.name.as_str()
    }

    /// Where the site is found.
    pub fn base_url(&self) -> (url: &str)
        ensures
            url@ == self@.base_url,
    {
        self.base_url.as_str()
    }

    /// The path of the first page of results for `query`, the query
    /// percent-encoded.
    pub fn search_path(query: &str) -> (path: String)
        ensures
            path@ == search_path_of(query@),
    {
        let encoded = encode(query);
        let mut path = String::from_str("/search/");
        path.append(encoded.as_str());
        path.append("/1/");
        path
    }

    /// The path of the first page of `category`. Books are listed among
    /// other things.
    pub fn feed_path(category: Category) -> (path: &'static str)
        ensures
            path@ == feed_path_of(category),
    {
        match category {
            Category::Audio | Category::Music => "/cat/Music/1/",
            Category::Movie => "/cat/Movies/1/",
            Category::Tv => "/cat/TV/1/",
            Category::Book => "/cat/Other/1/",
        }
    }

    /// The address of the page at `path`.
    pub fn page_url(&self, path: &str) -> (url: String)
        ensures
            url@ == self@.base_url + path@,
    {
        concat2(self.base_url.as_str(), path)
    }

    /// What a listing page gives: where it could not be had, the one error
    /// of that; else its rows, each read for itself.
    pub fn listing(&self, page: Result<String, IndexerError>) -> (batch: IndexerResult)
        ensures
            match page {
                Ok(html) => search::is_listing_of(self@.base_url, html@, batch@),
                Err(error) => batch@ == ResultView::empty().with_error(error@),
            },
    {
        match page {
            Ok(html) => search::parse(self.base_url.as_str(), html.as_str()),
            Err(error) => IndexerResult::from_error(error),
        }
    }

    /// The entry with the magnet link that its page holds: where the page
    /// could not be had or holds none, the error of that, and no entry.
    pub fn resolve_magnet(entry: IndexerEntry, page: Result<String, IndexerError>) -> (outcome:
        Result<IndexerEntry, IndexerError>)
        ensures
            match page {
                Ok(html) => outcome_view(outcome) == resolved(entry@, torrent::links_of(html@)),
                Err(error) => outcome_view(outcome) == Err::<EntryView, ErrorView>(error@),
            },
    {
        match page {
            Ok(html) => {
                let hrefs = torrent::read_links(html.as_str());
                let found = torrent::magnet_among(&hrefs);
                Self::with_magnet(entry, found)
            },
            Err(error) => Err(error),
        }
    }

    /// The entry with `magnet` in place of the path of its page; the error
    /// where there is none.
    pub fn with_magnet(entry: IndexerEntry, magnet: Result<String, IndexerError>) -> (outcome:
        Result<IndexerEntry, IndexerError>)
        ensures
            outcome_view(outcome) == match magnet {
                Ok(magnet) => Ok(with_magnet(entry@, magnet@)),
                Err(error) => Err(error@),
            },
    {
        match magnet {
            Ok(magnet) => {
                let mut entry = entry;
                entry.magnet = magnet;
                Ok(entry)
            },
            Err(error) => Err(error),
        }
    }

    /// The batch of a request: the errors of the listing first, then, in
    /// the order of the listing, each entry as resolved or the error of
    /// resolving it. No failure touches another entry.
    pub fn finish(listing_errors: Vec<IndexerError>, resolved: Vec<
        Result<IndexerEntry, IndexerError>,
    >) -> (batch: IndexerResult)
        ensures
            batch@ == (ResultView {
                entries: Seq::empty(),
                errors: error_views(listing_errors@),
            }).with_outcomes(outcome_views(resolved@)),
    {
        IndexerResult::from_outcomes(listing_errors, resolved)
    }
}

/// What resolving `entry` gives where its page holds the links `hrefs`.
pub open spec fn resolved(entry: EntryView, hrefs: Seq<Option<Seq<char>>>) -> Result<
    EntryView,
    ErrorView,
> {
    match torrent::first_magnet(hrefs) {
        Some(magnet) => Ok(with_magnet(entry, magnet)),
        None => Err(torrent::magnet_not_found()),
    }
}

} // verus!
