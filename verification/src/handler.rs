//! What a request of the feed protocol asks for.

use crate::prelude::Category;
use crate::text::chars_of;
use vstd::prelude::*;

verus! {

/// The content type of both documents.
pub const CONTENT_TYPE: &'static str = "application/rss+xml; charset=utf-8";

/// A document, to be answered as `application/rss+xml`.
#[derive(Debug)]
pub struct ApplicationRssXml(pub String);

impl ApplicationRssXml {
    /// The content type of the answer.
    pub fn content_type(&self) -> (value: &'static str)
        ensures
            value@ == CONTENT_TYPE@,
    {
        CONTENT_TYPE
    }
}

/// The parameters of a request, by its `t`.
#[derive(Debug)]
#[allow(inconsistent_fields)]
pub enum QueryParams {
    Caps,
    Music,
    Search { cat: Category, q: String },
    TvSearch { cat: Category, q: Option<String>, season: Option<String>, ep: Option<String> },
    Movie { cat: Category, q: Option<String> },
}

/// What the server does for a request.
#[derive(Debug)]
pub enum Action {
    /// Answer with the capabilities document.
    Capabilities,
    /// Ask every adapter for its feed of the category, and answer with the
    /// feed document of what they return.
    Feed(Category),
    /// Ask every adapter for the query, and answer with the feed document
    /// of what they return, under the category.
    Search(Category, String),
}

/// An action as plain values.
pub enum ActionView {
    Capabilities,
    Feed(Category),
    Search(Category, Seq<char>),
}

impl View for Action {
    type V = ActionView;

    open spec fn view(&self) -> ActionView {
        match self {
            Action::Capabilities => ActionView::Capabilities,
            Action::Feed(category) => ActionView::Feed(*category),
            Action::Search(category, query) => ActionView::Search(*category, query@),
        }
    }
}

/// A number of a season or an episode with a zero before it where it is a
/// single ASCII character.
pub open spec fn padded(input: Seq<char>) -> Seq<char> {
    if input.len() == 1 && (input[0] as u32) < 128 {
        "0"@ + input
    } else {
        input
    }
}

/// The query of a search for a series: the season behind it as `S01`, and
/// the episode behind that as `E02`; an episode without a season is passed
/// over.
pub open spec fn tv_query(query: Seq<char>, season: Option<Seq<char>>, episode: Option<Seq<char>>) -> Seq<
    char,
> {
    match (season, episode) {
        (Some(s), Some(e)) => query + " S"@ + padded(s) + "E"@ + padded(e),
        (Some(s), None) => query + " S"@ + padded(s),
        _ => query,
    }
}

/// An optional text as plain values.
pub open spec fn optional(text: Option<String>) -> Option<Seq<char>> {
    match text {
        Some(text) => Some(text@),
        None => None,
    }
}

impl QueryParams {
    /// What the request asks for. A search without words is the feed of its
    /// category.
    pub open spec fn action(self) -> ActionView {
        match self {
            QueryParams::Caps => ActionView::Capabilities,
            QueryParams::Music => ActionView::Feed(Category::Music),
            QueryParams::Search { cat, q } => if q@.len() == 0 {
                ActionView::Feed(cat)
            } else {
                ActionView::Search(cat, q@)
            },
            QueryParams::TvSearch { cat, q, season, ep } => match q {
                Some(query) => ActionView::Search(
                    cat,
                    tv_query(query@, optional(season), optional(ep)),
                ),
                None => ActionView::Feed(cat),
            },
            QueryParams::Movie { cat, q } => match q {
                Some(query) => ActionView::Search(cat, query@),
                None => ActionView::Feed(cat),
            },
        }
    }

    /// What the request asks for.
    pub fn handle(self) -> (action: Action)
        ensures
            action@ == self.action(),
    {
        match self {
            QueryParams::Caps => Action::Capabilities,
            QueryParams::Music => Action::Feed(Category::Music),
            QueryParams::Search { cat, q } => {
                if q.as_str().is_empty() {
                    Action::Feed(cat)
                } else {
                    Action::Search(cat, q)
                }
            },
            QueryParams::TvSearch { cat, q, season, ep } => match q {
                Some(query) => Action::Search(cat, handle_tv_search(query, season, ep)),
                None => Action::Feed(cat),
            },
            QueryParams::Movie { cat, q } => match q {
                Some(query) => Action::Search(cat, query),
                None => Action::Feed(cat),
            },
        }
    }
}

/// A number of a season or an episode, with a zero before it where it is a
/// single ASCII character.
pub fn format_number(input: String) -> (out: String)
    ensures
        out@ == padded(input@),
{
    let v = chars_of(input.as_str());
    if v.len() == 1 && (v[0] as u32) < 128 {
        let mut out = String::from_str("0");
        out.append(input.as_str());
        out
    } else {
        input
    }
}

/// The query of a search for a series, with its season and episode.
pub fn handle_tv_search(query: String, season: Option<String>, episode: Option<String>) -> (out:
    String)
    ensures
        out@ == tv_query(query@, optional(season), optional(episode)),
{
    match (season, episode) {
        (Some(s), Some(e)) => {
            let mut out = query;
            let season = format_number(s);
            let episode = format_number(e);
            out.append(" S");
            out.append(season.as_str());
            out.append("E");
            out.append(episode.as_str());
            out
        },
        (Some(s), None) => {
            let mut out = query;
            let season = format_number(s);
            out.append(" S");
            out.append(season.as_str());
            out
        },
        _ => query,
    }
}

} // verus!
