//! The adapter of The Pirate Bay: a JSON interface whose records name an
//! info hash, from which the magnet link is made here.

pub mod common;
pub mod feed;
pub mod search;

use crate::prelude::{
    error_of, text_outcome, Category, ErrorView, IndexerError, IndexerErrorReason, ReasonView,
};
use crate::text::{concat2, decimal_string, decimal_text};
use crate::url::{param_views, url_with_params, with_params};
use vstd::prelude::*;

verus! {

/// The name under which the adapter signs its entries and errors.
pub const NAME: &'static str = "thepiratebay";

/// Where the interface is found where nothing else is configured.
pub const API_URL: &'static str = "https://apibay.org";

/// Where the site is found where nothing else is configured.
pub const BASE_URL: &'static str = "https://thepiratebay.org";

/// The settings of the adapter.
#[derive(Debug)]
pub struct IndexerThePirateBayConfig {
    pub api_url: String,
    pub base_url: String,
}

/// The adapter.
#[derive(Debug)]
pub struct IndexerThePirateBay {
    name: String,
    api_url: String,
    base_url: String,
}

/// The adapter as plain values: its name, where the interface is found and
/// where the site.
pub struct ApiView {
    pub name: Seq<char>,
    pub api_url: Seq<char>,
    pub base_url: Seq<char>,
}

impl View for IndexerThePirateBay {
    type V = ApiView;

    closed spec fn view(&self) -> ApiView {
        ApiView { name: self.name@, api_url: self.api_url@, base_url: self.base_url@ }
    }
}

impl IndexerThePirateBayConfig {
    pub fn default_api_url() -> (url: String)
        ensures
            url@ == API_URL@,
    {
        String::from_str(API_URL)
    }

    pub fn default_base_url() -> (url: String)
        ensures
            url@ == BASE_URL@,
    {
        String::from_str(BASE_URL)
    }

    /// The adapter of these settings, called `name`.
    pub fn build(self, name: String) -> (indexer: IndexerThePirateBay)
        ensures
            indexer@ == (ApiView {
                name: name@,
                api_url: self.api_url@,
                base_url: self.base_url@,
            }),
    {
        IndexerThePirateBay { name, api_url: self.api_url, base_url: self.base_url }
    }
}

impl Default for IndexerThePirateBay {
    fn default() -> (indexer: Self)
        ensures
            indexer@ == (ApiView {
                name: "ThePirateBay"@,
                api_url: API_URL@,
                base_url: BASE_URL@,
            }),
    {
        Self::new(API_URL, BASE_URL)
    }
}

/// The site's own categories that make up a category of the protocol.
pub open spec fn site_categories(category: Category) -> Seq<u16> {
    match category {
        Category::Audio | Category::Music => seq![101u16, 104u16],
        Category::Movie => seq![201u16, 202u16, 207u16],
        Category::Tv => seq![205u16, 208u16],
        Category::Book => seq![601u16],
    }
}

/// The address of the hundred most active torrents of a site category.
pub open spec fn feed_url_of(api_url: Seq<char>, category: u16) -> Seq<char> {
    api_url + "/precompiled/data_top100_"@ + decimal_text(category as nat) + ".json"@
}

/// The address of the results for `query` in a site category, or the error
/// of building it.
pub open spec fn search_url_of(api_url: Seq<char>, query: Seq<char>, category: u16) -> Result<
    Seq<char>,
    ErrorView,
> {
    match url_with_params(
        api_url + "/q.php"@,
        seq![("q"@, query), ("cat"@, decimal_text(category as nat))],
    ) {
        Ok(url) => Ok(url),
        Err(cause) => Err(error_of(NAME@, ReasonView::UnableToBuildUrl { cause })),
    }
}

impl IndexerThePirateBay {
    pub fn new(api_url: &str, base_url: &str) -> (indexer: Self)
        ensures
            indexer@ == (ApiView {
                name: "ThePirateBay"@,
                api_url: api_url@,
                base_url: base_url@,
            }),
    {
        Self {
            name: String::from_str("ThePirateBay"),
            api_url: String::from_str(api_url),
            base_url: String::from_str(base_url),
        }
    }

    /// The name that the adapter was given.
    pub fn name(&self) -> (name: &str)
        ensures
            name@ == self@.name,
    {
        self.name.as_str()
    }

    /// Where the interface is found.
    pub fn api_url(&self) -> (url: &str)
        ensures
            url@ == self@.api_url,
    {
        self.api_url.as_str()
    }

    /// Where the site is found, on which the descriptions of the torrents
    /// stand.
    pub fn base_url(&self) -> (url: &str)
        ensures
            url@ == self@.base_url,
    {
        self.base_url.as_str()
    }

    /// The site's own categories that make up `category`, in the order in
    /// which their feeds are merged.
    pub fn feed_categories(category: Category) -> (list: Vec<u16>)
        ensures
            list@ == site_categories(category),
    {
        let mut list: Vec<u16> = Vec::new();
        match category {
            Category::Audio | Category::Music => {
                list.push(101);
                list.push(104);
            },
            Category::Movie => {
                list.push(201);
                list.push(202);
                list.push(207);
            },
            Category::Tv => {
                list.push(205);
                list.push(208);
            },
            Category::Book => {
                list.push(601);
            },
        }
        assert(list@ =~= site_categories(category));
        list
    }

    /// The address of the feed of one site category.
    pub fn feed_url(&self, category: u16) -> (url: String)
        ensures
            url@ == feed_url_of(self@.api_url, category),
    {
        let number = decimal_string(category as u64);
        let mut url = String::from_str(self.api_url.as_str());
        url.append("/precompiled/data_top100_");
        url.append(number.as_str());
        url.append(".json");
        url
    }

    /// The address of the results for `query` in a site category; category
    /// 0 is all of them.
    pub fn search_url(&self, query: &str, category: u16) -> (r: Result<String, IndexerError>)
        ensures
            text_outcome(r) == search_url_of(self@.api_url, query@, category),
    {
        let page = concat2(self.api_url.as_str(), "/q.php");
        let number = decimal_string(category as u64);
        let mut params: Vec<(&str, &str)> = Vec::new();
        params.push(("q", query));
        params.push(("cat", number.as_str()));
        assert(param_views(params@) =~= seq![("q"@, query@), ("cat"@, number@)]);
        match with_params(page.as_str(), &params) {
            Ok(url) => Ok(url),
            Err(cause) => Err(
                IndexerError::new(NAME, IndexerErrorReason::UnableToBuildUrl { cause }),
            ),
        }
    }
}

} // verus!
