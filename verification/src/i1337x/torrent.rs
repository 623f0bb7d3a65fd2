//! The page of one torrent, read for its magnet link.

use super::NAME;
use crate::page::{
    attribute, attribute_of, canonical, compile, matching, node, nodes, parse_document, parsed,
    rule, select_all, text_view,
};
use crate::prelude::{
    error_of, text_outcome, ErrorView, IndexerError, IndexerErrorReason, ReasonView,
};
use crate::text::{chars_of, starts_with};
use vstd::prelude::*;

verus! {

/// Where the links of the page stand.
pub const RESULT_LINK: &'static str =
    "main.container div.row div.page-content div.box-info.torrent-detail-page div.no-top-radius div ul li a";

/// Whether `href` is a magnet link.
pub open spec fn is_magnet(href: Seq<char>) -> bool {
    "magnet:?"@.is_prefix_of(href)
}

/// The first magnet link among `hrefs`.
pub open spec fn first_magnet(hrefs: Seq<Option<Seq<char>>>) -> Option<Seq<char>>
    decreases hrefs.len(),
{
    if hrefs.len() == 0 {
        None
    } else {
        match hrefs[0] {
            Some(href) if is_magnet(href) => Some(href),
            _ => first_magnet(hrefs.drop_first()),
        }
    }
}

/// The error of a page without magnet link.
pub open spec fn magnet_not_found() -> ErrorView {
    error_of(NAME@, ReasonView::EntryMagnetNotFound)
}

/// The links `hrefs` as plain values.
pub open spec fn href_views(hrefs: Seq<Option<String>>) -> Seq<Option<Seq<char>>> {
    hrefs.map_values(|href: Option<String>| text_view(href))
}

/// What the links `hrefs` give: the first magnet link, or the error of none.
pub open spec fn magnet_of(hrefs: Seq<Option<Seq<char>>>) -> Result<Seq<char>, ErrorView> {
    match first_magnet(hrefs) {
        Some(magnet) => Ok(magnet),
        None => Err(magnet_not_found()),
    }
}

/// Where each link of the page that the text `html` is leads, in the order
/// in which `scraper` gives them: the `href` of each element that stands
/// where the links stand; none where that place cannot be read as a
/// selector.
pub open spec fn links_of(html: Seq<char>) -> Seq<Option<Seq<char>>> {
    match canonical(RESULT_LINK@) {
        Some(links) => matching(parsed(html), links).map_values(
            |link: Seq<char>| attribute(link, "href"@),
        ),
        None => Seq::empty(),
    }
}

/// Where each link of the page leads, in the order in which `scraper`
/// gives them.
pub(crate) fn read_links(html: &str) -> (hrefs: Vec<Option<String>>)
    ensures
        href_views(hrefs@) == links_of(html@),
{
    let mut hrefs: Vec<Option<String>> = Vec::new();
    let document = parse_document(html);
    match compile(RESULT_LINK) {
        Some(selector) => {
            let links = select_all(&document, &selector);
            let ghost places = matching(parsed(html@), rule(selector));
            let mut i: usize = 0;
            while i < links.len()
                invariant
                    i <= links.len(),
                    nodes(links@) == places,
                    href_views(hrefs@) =~= places.take(i as int).map_values(
                        |link: Seq<char>| attribute(link, "href"@),
                    ),
                decreases links.len() - i,
            {
                let href = attribute_of(&links[i], "href");
                assert(nodes(links@)[i as int] == node(links@[i as int]));
                let ghost before = hrefs@;
                hrefs.push(href);
                assert(href_views(hrefs@) =~= href_views(before).push(text_view(href)));
                assert(places.take(i + 1).map_values(|link: Seq<char>| attribute(link, "href"@))
                    =~= places.take(i as int).map_values(
                    |link: Seq<char>| attribute(link, "href"@),
                ).push(attribute(places[i as int], "href"@)));
                i += 1;
            }
            assert(places.take(links.len() as int) =~= places);
        },
        None => {
            assert(href_views(hrefs@) =~= Seq::empty());
        },
    }
    hrefs
}

/// The first magnet link among `hrefs`.
pub fn magnet_among(hrefs: &Vec<Option<String>>) -> (r: Result<String, IndexerError>)
    ensures
        text_outcome(r) == magnet_of(href_views(hrefs@)),
{
    let scheme = chars_of("magnet:?");
    let ghost all = href_views(hrefs@);
    let mut i: usize = 0;
    assert(all.skip(0) =~= all);
    while i < hrefs.len()
        invariant
            i <= hrefs.len(),
            scheme@ == "magnet:?"@,
            all == href_views(hrefs@),
            first_magnet(all) == first_magnet(all.skip(i as int)),
        decreases hrefs.len() - i,
    {
        assert(all.skip(i as int)[0] == text_view(hrefs@[i as int]));
        assert(all.skip(i as int).drop_first() =~= all.skip(i + 1));
        match &hrefs[i] {
            Some(href) => {
                let letters = chars_of(href.as_str());
                if starts_with(&letters, &scheme) {
                    return Ok(href.clone());
                }
            },
            None => {},
        }
        i += 1;
    }
    Err(IndexerError::new(NAME, IndexerErrorReason::EntryMagnetNotFound))
}

/// The magnet link of a torrent's page: where the first link of the page
/// that is one leads.
pub fn parse_magnet(html: &str) -> (r: Result<String, IndexerError>)
    ensures
        text_outcome(r) == magnet_of(links_of(html@)),
{
    let hrefs = read_links(html);
    magnet_among(&hrefs)
}

} // verus!
