//! The two documents of the feed protocol: the capabilities of the server
//! and the feed of entries. Both are functions of their inputs alone.

use crate::prelude::{entry_views, Category, EntryView, IndexerEntry};
use crate::text::{concat2, decimal_string, decimal_text};
use crate::time::rfc2822_text;
use crate::xml::{
    empty_tag, end_tag, start_tag, text_element, write_empty, write_empty2, write_empty3,
    write_end, write_start, write_start3, write_text_element, XmlWriter,
};
use vstd::prelude::*;

verus! {

/// The declaration that opens both documents.
pub const DOM: &'static str = "<?xml version=\"1.0\" encoding=\"UTF-8\"?>";

/// What the server says of itself in its documents.
#[derive(Debug)]
pub struct TorznabConfig {
    pub name: String,
    pub description: String,
    pub base_url: String,
}

/// Writes the documents of one server.
#[derive(Debug)]
pub struct TorznabBuilder {
    name: String,
    description: String,
    base_url: String,
}

/// A builder as plain values.
pub struct BuilderView {
    pub name: Seq<char>,
    pub description: Seq<char>,
    pub base_url: Seq<char>,
}

impl View for TorznabBuilder {
    type V = BuilderView;

    closed spec fn view(&self) -> BuilderView {
        BuilderView {
            name: self.name@,
            description: self.description@,
            base_url: self.base_url@,
        }
    }
}

impl TorznabConfig {
    /// The server's name where none is configured.
    pub fn default_name() -> (name: String)
        ensures
            name@ == "manteau"@,
    {
        String::from_str("manteau")
    }

    /// The server's description where none is configured.
    pub fn default_description() -> (description: String)
        ensures
            description@ == "Manteau is an aggregator for torrent search engines."@,
    {
        String::from_str("Manteau is an aggregator for torrent search engines.")
    }

    /// The server's address where none is configured: `base_url` where it is
    /// set, else `http://host:port`, with `127.0.0.1` and `3000` where they
    /// are not set. The three arguments are what the environment holds under
    /// `BASE_URL`, `HOST` and `PORT`.
    pub fn default_base_url(base_url: Option<String>, host: Option<String>, port: Option<
        String,
    >) -> (url: String)
        ensures
            url@ == match base_url {
                Some(base_url) => base_url@,
                None => "http://"@ + (match host {
                    Some(host) => host@,
                    None => "127.0.0.1"@,
                }) + ":"@ + (match port {
                    Some(port) => port@,
                    None => "3000"@,
                }),
            },
    {
        match base_url {
            Some(base_url) => base_url,
            None => {
                let mut url = String::from_str("http://");
                match host {
                    Some(host) => url.append(host.as_str()),
                    None => url.append("127.0.0.1"),
                }
                url.append(":");
                match port {
                    Some(port) => url.append(port.as_str()),
                    None => url.append("3000"),
                }
                url
            },
        }
    }

    pub fn build(self) -> (builder: TorznabBuilder)
        ensures
            builder@ == (BuilderView {
                name: self.name@,
                description: self.description@,
                base_url: self.base_url@,
            }),
    {
        TorznabBuilder { name: self.name, description: self.description, base_url: self.base_url }
    }
}

// ---------------------------------------------------------------------------
// Capabilities
// ---------------------------------------------------------------------------

/// `before`, then the element that names the server.
pub open spec fn server_onto(before: Seq<char>, name: Seq<char>) -> Seq<char> {
    before + text_element("server"@, name)
}

/// `before`, then the element of the limits.
pub open spec fn limits_onto(before: Seq<char>) -> Seq<char> {
    before + empty_tag("limits"@, seq![("default"@, "100"@), ("max"@, "100"@)])
}

/// One search mode: its tag, available, with the parameters it takes.
pub open spec fn search_mode(tag: Seq<char>, parameters: Seq<char>) -> Seq<char> {
    empty_tag(tag, seq![("available"@, "yes"@), ("supportedParams"@, parameters)])
}

/// `before`, then the five search modes.
pub open spec fn searching_onto(before: Seq<char>) -> Seq<char> {
    before + start_tag("searching"@, Seq::empty()) + search_mode("search"@, "q"@) + search_mode(
        "tv-search"@,
        "q,season,ep"@,
    ) + search_mode("movie-search"@, "q"@) + search_mode("music-search"@, "q"@) + search_mode(
        "book-search"@,
        "q"@,
    ) + end_tag("searching"@)
}

/// One category: its code and its name.
pub open spec fn category_element(id: Seq<char>, name: Seq<char>) -> Seq<char> {
    empty_tag("category"@, seq![("id"@, id), ("name"@, name)])
}

/// `before`, then the four categories.
pub open spec fn categories_onto(before: Seq<char>) -> Seq<char> {
    before + start_tag("categories"@, Seq::empty()) + category_element("2000"@, "Movies"@)
        + category_element("3000"@, "Audio"@) + category_element("5000"@, "TV"@) + category_element(
        "7000"@,
        "Books"@,
    ) + end_tag("categories"@)
}

/// `before`, then the capabilities of the server called `name`.
pub open spec fn caps_onto(before: Seq<char>, name: Seq<char>) -> Seq<char> {
    categories_onto(
        searching_onto(limits_onto(server_onto(before + start_tag("caps"@, Seq::empty()), name))),
    ) + end_tag("caps"@)
}

/// The capabilities document of the server called `name`.
pub open spec fn capabilities_text(name: Seq<char>) -> Seq<char> {
    DOM@ + caps_onto(Seq::empty(), name)
}

// ---------------------------------------------------------------------------
// Feed
// ---------------------------------------------------------------------------

/// One attribute of the protocol's own: `<torznab:attr name=".." value=".."/>`.
pub open spec fn torznab_attr(name: Seq<char>, value: Seq<char>) -> Seq<char> {
    empty_tag("torznab:attr"@, seq![("name"@, name), ("value"@, value)])
}

/// `before`, then the item of one entry, under the category asked for.
pub open spec fn item_onto(before: Seq<char>, category: Category, entry: EntryView) -> Seq<char> {
    before + start_tag("item"@, Seq::empty()) + text_element("title"@, entry.name) + text_element(
        "guid"@,
        entry.url,
    ) + text_element("type"@, "public"@) + text_element("comments"@, entry.url) + text_element(
        "pubDate"@,
        rfc2822_text(entry.date),
    ) + text_element("size"@, decimal_text(entry.size)) + text_element("link"@, entry.magnet)
        + empty_tag(
        "enclosure"@,
        seq![
            ("url"@, entry.magnet),
            ("length"@, decimal_text(entry.size)),
            ("type"@, "application/x-bittorrent"@),
        ],
    ) + empty_tag("description"@, Seq::empty()) + text_element(
        "category"@,
        decimal_text(category.code()),
    ) + torznab_attr("genre"@, ""@) + torznab_attr("downloadvolumefactor"@, "0"@) + torznab_attr(
        "uploadvolumefactor"@,
        "1"@,
    ) + torznab_attr("magneturl"@, entry.magnet) + torznab_attr(
        "category"@,
        decimal_text(category.code()),
    ) + torznab_attr("seeders"@, decimal_text(entry.seeders)) + torznab_attr(
        "peers"@,
        decimal_text(entry.leechers),
    ) + end_tag("item"@)
}

/// `before`, then one item for each entry, in order.
pub open spec fn items_onto(before: Seq<char>, category: Category, entries: Seq<EntryView>) -> Seq<
    char,
>
    decreases entries.len(),
{
    if entries.len() == 0 {
        before
    } else {
        item_onto(items_onto(before, category, entries.drop_last()), category, entries.last())
    }
}

/// `before`, then the opening of the feed: the root, the channel and what
/// the channel says of the server.
pub open spec fn channel_head_onto(before: Seq<char>, builder: BuilderView) -> Seq<char> {
    before + start_tag(
        "rss"@,
        seq![
            ("version"@, "2.0"@),
            ("xmlns:atom"@, "http://www.w3.org/2005/Atom"@),
            ("xmlns:torznab"@, "http://torznab.com/schemas/2015/feed"@),
        ],
    ) + start_tag("channel"@, Seq::empty()) + empty_tag(
        "atom:link"@,
        seq![("href"@, builder.base_url), ("rel"@, "self"@), ("type"@, "application/rss+xml"@)],
    ) + text_element("title"@, builder.name) + text_element("description"@, builder.description)
        + text_element("link"@, builder.base_url) + text_element("language"@, "en-US"@)
        + text_element("category"@, "search"@)
}

/// `before`, then the feed of `entries` under `category`.
pub open spec fn rss_onto(
    before: Seq<char>,
    builder: BuilderView,
    category: Category,
    entries: Seq<EntryView>,
) -> Seq<char> {
    items_onto(channel_head_onto(before, builder), category, entries) + end_tag("channel"@)
        + end_tag("rss"@)
}

/// The feed document of `entries` under `category`.
pub open spec fn feed_text(builder: BuilderView, category: Category, entries: Seq<EntryView>) -> Seq<
    char,
> {
    DOM@ + rss_onto(Seq::empty(), builder, category, entries)
}

impl TorznabBuilder {
    /// The capabilities document: the five search modes and the four
    /// categories, the same at every call.
    pub fn capabilities(&self) -> (document: String)
        ensures
            document@ == capabilities_text(self@.name),
    {
        let writer = self.write_caps(XmlWriter::new());
        let body = writer.into_text();
        concat2(DOM, body.as_str())
    }

    fn write_caps(&self, writer: XmlWriter) -> (out: XmlWriter)
        ensures
            out@ == caps_onto(writer@, self@.name),
    {
        let writer = write_start(writer, "caps");
        let writer = self.write_server(writer);
        let writer = self.write_limits(writer);
        let writer = self.write_searching(writer);
        let writer = self.write_categories(writer);
        write_end(writer, "caps")
    }

    fn write_server(&self, writer: XmlWriter) -> (out: XmlWriter)
        ensures
            out@ == server_onto(writer@, self@.name),
    {
        write_text_element(writer, "server", self.name.as_str())
    }

    fn write_limits(&self, writer: XmlWriter) -> (out: XmlWriter)
        ensures
            out@ == limits_onto(writer@),
    {
        write_empty2(writer, "limits", "default", "100", "max", "100")
    }

    fn write_searching(&self, writer: XmlWriter) -> (out: XmlWriter)
        ensures
            out@ == searching_onto(writer@),
    {
        let writer = write_start(writer, "searching");
        let writer = write_empty2(writer, "search", "available", "yes", "supportedParams", "q");
        let writer = write_empty2(
            writer,
            "tv-search",
            "available",
            "yes",
            "supportedParams",
            "q,season,ep",
        );
        let writer = write_empty2(
            writer,
            "movie-search",
            "available",
            "yes",
            "supportedParams",
            "q",
        );
        let writer = write_empty2(
            writer,
            "music-search",
            "available",
            "yes",
            "supportedParams",
            "q",
        );
        let writer = write_empty2(
            writer,
            "book-search",
            "available",
            "yes",
            "supportedParams",
            "q",
        );
        write_end(writer, "searching")
    }

    fn write_categories(&self, writer: XmlWriter) -> (out: XmlWriter)
        ensures
            out@ == categories_onto(writer@),
    {
        let writer = write_start(writer, "categories");
        let writer = write_empty2(writer, "category", "id", "2000", "name", "Movies");
        let writer = write_empty2(writer, "category", "id", "3000", "name", "Audio");
        let writer = write_empty2(writer, "category", "id", "5000", "name", "TV");
        let writer = write_empty2(writer, "category", "id", "7000", "name", "Books");
        write_end(writer, "categories")
    }

    /// The feed document: one item for each entry, in order, each under the
    /// category that was asked for.
    pub fn feed(&self, category: Category, entries: &[IndexerEntry]) -> (document: String)
        ensures
            document@ == feed_text(self@, category, entry_views(entries@)),
    {
        let writer = self.write_rss(XmlWriter::new(), category, entries);
        let body = writer.into_text();
        concat2(DOM, body.as_str())
    }

    fn write_rss(&self, writer: XmlWriter, category: Category, entries: &[IndexerEntry]) -> (out:
        XmlWriter)
        ensures
            out@ == rss_onto(writer@, self@, category, entry_views(entries@)),
    {
        let writer = write_start3(
            writer,
            "rss",
            "version",
            "2.0",
            "xmlns:atom",
            "http://www.w3.org/2005/Atom",
            "xmlns:torznab",
            "http://torznab.com/schemas/2015/feed",
        );
        let writer = write_start(writer, "channel");
        let writer = write_empty3(
            writer,
            "atom:link",
            "href",
            self.base_url.as_str(),
            "rel",
            "self",
            "type",
            "application/rss+xml",
        );
        let writer = write_text_element(writer, "title", self.name.as_str());
        let writer = write_text_element(writer, "description", self.description.as_str());
        let writer = write_text_element(writer, "link", self.base_url.as_str());
        let writer = write_text_element(writer, "language", "en-US");
        let mut writer = write_text_element(writer, "category", "search");
        let ghost head = writer@;
        let ghost views = entry_views(entries@);
        assert(views.take(0) =~= Seq::empty());
        let mut i: usize = 0;
        while i < entries.len()
            invariant
                i <= entries.len(),
                views == entry_views(entries@),
                writer@ == items_onto(head, category, views.take(i as int)),
            decreases entries.len() - i,
        {
            writer = self.write_item(writer, category, &entries[i]);
            assert(views.take(i + 1).drop_last() =~= views.take(i as int));
            assert(views.take(i + 1).last() == entries@[i as int]@);
            i += 1;
        }
        assert(views.take(i as int) =~= views);
        let writer = write_end(writer, "channel");
        write_end(writer, "rss")
    }

    fn write_item(&self, writer: XmlWriter, category: Category, item: &IndexerEntry) -> (out:
        XmlWriter)
        ensures
            out@ == item_onto(writer@, category, item@),
    {
        let date = item.date_str();
        let size = item.size_str();
        let seeders = decimal_string(item.seeders);
        let leechers = decimal_string(item.leechers);
        let code = category.kind_str();
        let magnet = item.magnet.as_str();
        let writer = write_start(writer, "item");
        let writer = write_text_element(writer, "title", item.name.as_str());
        let writer = write_text_element(writer, "guid", item.url.as_str());
        let writer = write_text_element(writer, "type", "public");
        let writer = write_text_element(writer, "comments", item.url.as_str());
        let writer = write_text_element(writer, "pubDate", date.as_str());
        let writer = write_text_element(writer, "size", size.as_str());
        let writer = write_text_element(writer, "link", magnet);
        let writer = write_empty3(
            writer,
            "enclosure",
            "url",
            magnet,
            "length",
            size.as_str(),
            "type",
            "application/x-bittorrent",
        );
        let writer = write_empty(writer, "description");
        let writer = write_text_element(writer, "category", code);
        let writer = write_empty2(writer, "torznab:attr", "name", "genre", "value", "");
        let writer = write_empty2(
            writer,
            "torznab:attr",
            "name",
            "downloadvolumefactor",
            "value",
            "0",
        );
        let writer = write_empty2(
            writer,
            "torznab:attr",
            "name",
            "uploadvolumefactor",
            "value",
            "1",
        );
        let writer = write_empty2(writer, "torznab:attr", "name", "magneturl", "value", magnet);
        let writer = write_empty2(writer, "torznab:attr", "name", "category", "value", code);
        let writer = write_empty2(
            writer,
            "torznab:attr",
            "name",
            "seeders",
            "value",
            seeders.as_str(),
        );
        let writer = write_empty2(
            writer,
            "torznab:attr",
            "name",
            "peers",
            "value",
            leechers.as_str(),
        );
        write_end(writer, "item")
    }
}

/// The feed document of a server called `manteau` at `base_url`.
pub fn build_feed(base_url: &str, category: Category, entries: &[IndexerEntry]) -> (document:
    String)
    ensures
        document@ == feed_text(
            BuilderView {
                name: "manteau"@,
                description: "Manteau is an aggregator for torrent search engines."@,
                base_url: base_url@,
            },
            category,
            entry_views(entries@),
        ),
{
    let builder = TorznabBuilder {
        name: TorznabConfig::default_name(),
        description: TorznabConfig::default_description(),
        base_url: String::from_str(base_url),
    };
    builder.feed(category, entries)
}

/// The capabilities document depends on the server's name alone: two
/// builders of one name write the same document.
pub proof fn lemma_capabilities_fixed(a: BuilderView, b: BuilderView)
    requires
        a.name == b.name,
    ensures
        capabilities_text(a.name) == capabilities_text(b.name),
{
}

} // verus!
