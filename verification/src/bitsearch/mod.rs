//! The adapter of bitsearch: listing pages that hold everything of an
//! entry, the magnet link too.

pub mod date;
pub mod search;

use crate::prelude::{
    error_of, text_outcome, Category, ErrorView, IndexerError, IndexerErrorReason, IndexerResult,
    ReasonView, ResultView, SiteView,
};
use crate::text::concat2;
use crate::url::{url_with_params, with_params};
use vstd::prelude::*;

verus! {

/// The name under which the adapter signs its entries and errors.
pub const NAME: &'static str = "bitsearch";

/// Where the site is found where nothing else is configured.
pub const BASE_URL: &'static str = "https://bitsearch.to";

/// The settings of the adapter.
#[derive(Debug)]
pub struct IndexerBitsearchConfig {
    pub base_url: String,
}

/// The adapter.
#[derive(Debug)]
pub struct IndexerBitsearch {
    name: String,
    base_url: String,
}

impl View for IndexerBitsearch {
    type V = SiteView;

    closed spec fn view(&self) -> SiteView {
        SiteView { name: self.name@, base_url: self.base_url@ }
    }
}

impl IndexerBitsearchConfig {
    pub fn default_base_url() -> (url: String)
        ensures
            url@ == BASE_URL@,
    {
        String::from_str(BASE_URL)
    }

    /// The adapter of these settings, called `name`.
    pub fn build(self, name: String) -> (indexer: IndexerBitsearch)
        ensures
            indexer@ == (SiteView { name: name@, base_url: self.base_url@ }),
    {
        IndexerBitsearch { name, base_url: self.base_url }
    }
}

impl Default for IndexerBitsearch {
    fn default() -> (indexer: Self)
        ensures
            indexer@ == (SiteView { name: NAME@, base_url: BASE_URL@ }),
    {
        Self::new(BASE_URL)
    }
}

/// The path of the page of a category; `None` for a category that the site
/// does not list.
pub open spec fn feed_path_of(category: Category) -> Option<Seq<char>> {
    match category {
        Category::Audio | Category::Music => Some("/music"@),
        Category::Movie => Some("/libraries"@),
        Category::Tv => Some("/libraries?type=tvSeries"@),
        Category::Book => None,
    }
}

/// The address of the results for `query`, or the error of building it.
pub open spec fn search_url_of(base_url: Seq<char>, query: Seq<char>) -> Result<
    Seq<char>,
    ErrorView,
> {
    match url_with_params(base_url + "/search"@, seq![("q"@, query)]) {
        Ok(url) => Ok(url),
        Err(cause) => Err(error_of(NAME@, ReasonView::UnableToBuildUrl { cause })),
    }
}

impl IndexerBitsearch {
    pub fn new(base_url: &str) -> (indexer: Self)
        ensures
            indexer@ == (SiteView { name: NAME@, base_url: base_url@ }),
    {
        Self { name: String::from_str(NAME), base_url: String::from_str(base_url) }
    }

    /// The name that the adapter was given.
    pub fn name(&self) -> (name: &str)
        ensures
            name@ == self@.name,
    {
        self.name.as_str()
    }

    /// Where the site is found.
    pub fn base_url(&self) -> (url: &str)
        ensures
            url@ == self@.base_url,
    {
        self.base_url.as_str()
    }

    /// The address of the results for `query`: the site's search page with
    /// the query as its parameter `q`.
    pub fn search_url(&self, query: &str) -> (r: Result<String, IndexerError>)
        ensures
            text_outcome(r) == search_url_of(self@.base_url, query@),
    {
        let page = concat2(self.base_url.as_str(), "/search");
        let mut params: Vec<(&str, &str)> = Vec::new();
        params.push(("q", query));
        assert(crate::url::param_views(params@) =~= seq![("q"@, query@)]);
        match with_params(page.as_str(), &params) {
            Ok(url) => Ok(url),
            Err(cause) => Err(
                IndexerError::new(NAME, IndexerErrorReason::UnableToBuildUrl { cause }),
            ),
        }
    }

    /// The address of the page of `category`; `None` for books, which the
    /// site does not list: their feed is empty.
    pub fn feed_url(&self, category: Category) -> (url: Option<String>)
        ensures
            match (url, feed_path_of(category)) {
                (Some(url), Some(path)) => url@ == self@.base_url + path,
                (None, None) => true,
                _ => false,
            },
    {
        let path = match category {
            Category::Audio | Category::Music => "/music",
            Category::Movie => "/libraries",
            Category::Tv => "/libraries?type=tvSeries",
            Category::Book => { return None; },
        };
        Some(concat2(self.base_url.as_str(), path))
    }

    /// What a listing page gives: where it could not be had, the one error
    /// of that; else its rows, each read for itself.
    pub fn listing(&self, page: Result<String, IndexerError>) -> (batch: IndexerResult)
        ensures
            match page {
                Ok(html) => search::is_listing_of(self@.base_url, html@, batch@),
                Err(error) => batch@ == ResultView::empty().with_error(error@),
            },
    {
        match page {
            Ok(html) => search::parse(self.base_url.as_str(), html.as_str()),
            Err(error) => IndexerResult::from_error(error),
        }
    }
}

} // verus!
