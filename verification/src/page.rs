//! Reading HTML pages through `scraper`.
//!
//! A parsed page, its elements and the selectors are `scraper`'s own values.
//! What `scraper` finds in a page depends on the page and on the selector
//! alone, so each of its answers has a name here, and the functions that
//! read a page state what they return over those names. What the adapters
//! read from an element is copied into a `RawRow` of plain text; the rules
//! of each site work on that.

use scraper::{ElementRef, Html, Selector};
use vstd::prelude::*;

verus! {

/// `scraper::Html`, a parsed page.
#[verifier::external_type_specification]
#[verifier::external_body]
pub struct ExHtml(Html);

/// `scraper::Selector`, a CSS selector ready for use.
#[verifier::external_type_specification]
#[verifier::external_body]
pub struct ExSelector(Selector);

/// `scraper::ElementRef`, one element of a parsed page.
#[verifier::external_type_specification]
#[verifier::external_body]
pub struct ExElementRef<'a>(ElementRef<'a>);

/// The page that `document` holds, as parsed: its nodes, each with its
/// name and attributes or its text, and how they stand in one another.
pub uninterp spec fn tree(document: Html) -> Seq<char>;

/// The page that the text `html` is, as `Html::parse_document` parses it.
pub uninterp spec fn parsed(html: Seq<char>) -> Seq<char>;

/// The rule that `selector` holds: which elements it matches.
pub uninterp spec fn rule(selector: Selector) -> Seq<char>;

/// The rule that the text `css` is, as `Selector::parse` reads it; `None`
/// where it is no selector.
pub uninterp spec fn canonical(css: Seq<char>) -> Option<Seq<char>>;

/// Which element `element` is: its page, and where it stands in it.
pub uninterp spec fn node(element: ElementRef) -> Seq<char>;

/// The elements of the page `tree` that match `rule`, as `Html::select`
/// gives them: in the order in which the parser made the nodes, which is
/// the order of the page where the parser moves nothing.
pub uninterp spec fn matching(tree: Seq<char>, rule: Seq<char>) -> Seq<Seq<char>>;

/// The first element below the element `node` that matches `rule`, as
/// `ElementRef::select` gives it.
pub uninterp spec fn first_below(node: Seq<char>, rule: Seq<char>) -> Option<Seq<char>>;

/// The pieces of text below the element `node`, as `ElementRef::text`
/// gives them: in the order in which they stand in the tree.
pub uninterp spec fn texts_of(node: Seq<char>) -> Seq<Seq<char>>;

/// The value of the attribute `name` of the element `node`, as
/// `Element::attr` gives it.
pub uninterp spec fn attribute(node: Seq<char>, name: Seq<char>) -> Option<Seq<char>>;

/// What stands directly under the parent of the element `node`, in order:
/// each piece of text as itself, anything else as `None`; nothing where
/// the element has no parent.
pub uninterp spec fn beside(node: Seq<char>) -> Seq<Option<Seq<char>>>;

/// Which elements `elements` are.
pub open spec fn nodes(elements: Seq<ElementRef>) -> Seq<Seq<char>> {
    elements.map_values(|element: ElementRef| node(element))
}

/// The texts `pieces` as plain values.
pub open spec fn piece_views(pieces: Seq<String>) -> Seq<Seq<char>> {
    pieces.map_values(|piece: String| piece@)
}

/// `Html::parse_document`: the page that the text is.
#[verifier::external_body]
pub(crate) fn parse_document(html: &str) -> (document: Html)
    ensures
        tree(document) == parsed(html@),
{
    Html::parse_document(html)
}

/// `Selector::parse`: the rule that the text is; `None` where it is no
/// selector.
#[verifier::external_body]
pub(crate) fn compile(css: &str) -> (selector: Option<Selector>)
    ensures
        match selector {
            Some(selector) => canonical(css@) == Some(rule(selector)),
            None => canonical(css@) is None,
        },
{
    Selector::parse(css).ok()
}

/// `Html::select`: the elements of the page that match, in the order in
/// which the parser made the nodes.
#[verifier::external_body]
pub(crate) fn select_all<'a>(document: &'a Html, selector: &Selector) -> (found: Vec<
    ElementRef<'a>,
>)
    ensures
        nodes(found@) == matching(tree(*document), rule(*selector)),
{
    document.select(selector).collect()
}

/// `ElementRef::select`: the first element below `element` that matches.
#[verifier::external_body]
pub(crate) fn select_first<'a>(element: &ElementRef<'a>, selector: &Selector) -> (found: Option<
    ElementRef<'a>,
>)
    ensures
        match found {
            Some(found) => first_below(node(*element), rule(*selector)) == Some(node(found)),
            None => first_below(node(*element), rule(*selector)) is None,
        },
{
    element.select(selector).next()
}

/// `ElementRef::text`: the pieces of text below `element`, in the order in
/// which they stand in the tree.
#[verifier::external_body]
pub(crate) fn texts(element: &ElementRef) -> (pieces: Vec<String>)
    ensures
        piece_views(pieces@) == texts_of(node(*element)),
{
    element.text().map(String::from).collect()
}

/// `Element::attr`: the value of the attribute `name` of `element`.
#[verifier::external_body]
pub(crate) fn attribute_of(element: &ElementRef, name: &str) -> (value: Option<String>)
    ensures
        text_view(value) == attribute(node(*element), name@),
{
    element.value().attr(name).map(String::from)
}

/// `NodeRef::parent` and `NodeRef::children`: what stands directly under
/// the parent of `element`, in order, each piece of text as itself and
/// anything else as `None`; nothing where `element` has no parent.
#[verifier::external_body]
pub(crate) fn siblings_of(element: &ElementRef) -> (list: Vec<Option<String>>)
    ensures
        text_views(list@) == beside(node(*element)),
{
    match element.parent() {
        Some(parent) => parent.children().map(
            |child| child.value().as_text().map(|text| text.to_string()),
        ).collect(),
        None => Vec::new(),
    }
}

/// The texts `pieces`, one after the other.
pub open spec fn joined(pieces: Seq<Seq<char>>) -> Seq<char>
    decreases pieces.len(),
{
    if pieces.len() == 0 {
        Seq::empty()
    } else {
        joined(pieces.drop_last()) + pieces.last()
    }
}

/// The first of the texts `pieces`.
pub open spec fn first_piece(pieces: Seq<Seq<char>>) -> Option<Seq<char>> {
    if pieces.len() > 0 {
        Some(pieces[0])
    } else {
        None
    }
}

/// All the text below `element`, joined.
pub(crate) fn text_of(element: &ElementRef) -> (text: String)
    ensures
        text@ == joined(texts_of(node(*element))),
{
    let pieces = texts(element);
    let ghost all = piece_views(pieces@);
    let mut text = String::new();
    let mut i: usize = 0;
    assert(all.take(0) =~= Seq::empty());
    while i < pieces.len()
        invariant
            i <= pieces.len(),
            all == piece_views(pieces@),
            text@ == joined(all.take(i as int)),
        decreases pieces.len() - i,
    {
        text.append(pieces[i].as_str());
        assert(all.take(i + 1).drop_last() =~= all.take(i as int));
        assert(all.take(i + 1).last() == pieces@[i as int]@);
        i += 1;
    }
    assert(all.take(pieces.len() as int) =~= all);
    text
}

/// The first piece of text below `element`.
pub(crate) fn first_text_of(element: &ElementRef) -> (text: Option<String>)
    ensures
        text_view(text) == first_piece(texts_of(node(*element))),
{
    let pieces = texts(element);
    if pieces.len() > 0 {
        assert(piece_views(pieces@)[0] == pieces@[0]@);
        Some(pieces[0].clone())
    } else {
        None
    }
}

/// The first text among `list`.
pub open spec fn first_text(list: Seq<Option<Seq<char>>>) -> Option<Seq<char>>
    decreases list.len(),
{
    if list.len() == 0 {
        None
    } else if list[0] is Some {
        list[0]
    } else {
        first_text(list.drop_first())
    }
}

/// The texts of `list` as plain values.
pub open spec fn text_views(list: Seq<Option<String>>) -> Seq<Option<Seq<char>>> {
    list.map_values(|text: Option<String>| text_view(text))
}

/// The first text among `list`.
pub fn first_of(list: Vec<Option<String>>) -> (found: Option<String>)
    ensures
        text_view(found) == first_text(text_views(list@)),
{
    let ghost all = text_views(list@);
    let ghost items = list@;
    assert(all.skip(0) =~= all);
    for item in it: list
        invariant
            it.seq() == items,
            all == text_views(items),
            first_text(all) == first_text(all.skip(it.index())),
    {
        assert(all.skip(it.index())[0] == text_view(items[it.index()]));
        assert(all.skip(it.index()).drop_first() =~= all.skip(it.index() + 1));
        if item.is_some() {
            return item;
        }
    }
    assert(all.skip(items.len() as int) =~= Seq::empty());
    None
}

/// The first piece of text that stands directly under the parent of
/// `element`, beside it.
pub(crate) fn text_beside(element: &ElementRef) -> (text: Option<String>)
    ensures
        text_view(text) == first_text(beside(node(*element))),
{
    first_of(siblings_of(element))
}

/// The link of a row: its text and where it leads.
#[derive(Debug)]
pub struct RawLink {
    pub text: String,
    pub href: Option<String>,
}

/// What a listing page holds of one torrent, as found: each field is `None`
/// where the page has no such element, or the element no such text or
/// attribute.
#[derive(Debug)]
pub struct RawRow {
    pub link: Option<RawLink>,
    pub size: Option<String>,
    pub seeders: Option<String>,
    pub leechers: Option<String>,
    pub date: Option<String>,
    pub magnet: Option<String>,
}

/// A link as plain values.
pub struct LinkView {
    pub text: Seq<char>,
    pub href: Option<Seq<char>>,
}

/// A row as plain values.
pub struct RowView {
    pub link: Option<LinkView>,
    pub size: Option<Seq<char>>,
    pub seeders: Option<Seq<char>>,
    pub leechers: Option<Seq<char>>,
    pub date: Option<Seq<char>>,
    pub magnet: Option<Seq<char>>,
}

/// An optional text as plain values.
pub open spec fn text_view(text: Option<String>) -> Option<Seq<char>> {
    match text {
        Some(text) => Some(text@),
        None => None,
    }
}

impl View for RawLink {
    type V = LinkView;

    open spec fn view(&self) -> LinkView {
        LinkView { text: self.text@, href: text_view(self.href) }
    }
}

impl View for RawRow {
    type V = RowView;

    open spec fn view(&self) -> RowView {
        RowView {
            link: match self.link {
                Some(link) => Some(link@),
                None => None,
            },
            size: text_view(self.size),
            seeders: text_view(self.seeders),
            leechers: text_view(self.leechers),
            date: text_view(self.date),
            magnet: text_view(self.magnet),
        }
    }
}

/// The rows of `s` as plain values.
pub open spec fn row_views(s: Seq<RawRow>) -> Seq<RowView> {
    s.map_values(|row: RawRow| row@)
}

} // verus!
