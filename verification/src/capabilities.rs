//! The capabilities of the server as values, each of which writes itself as
//! XML onto a string.

use crate::text::{debug_string, debug_text, decimal_text, push_decimal};
use vstd::prelude::*;

verus! {

/// The server's name.
#[derive(Debug)]
pub struct Server {
    title: &'static str,
}

/// How many entries a feed holds.
#[derive(Debug)]
pub struct Limits {
    default: u32,
    max: u32,
}

/// One search mode.
#[derive(Debug)]
pub struct Search {
    tag: &'static str,
    available: &'static str,
    supported_params: &'static str,
}

/// The five search modes.
#[derive(Debug)]
pub struct Searching {
    modes: [Search; 5],
}

/// One category of the protocol.
#[derive(Debug)]
pub struct Category {
    id: u32,
    name: &'static str,
}

/// The four categories.
#[derive(Debug)]
pub struct Categories {
    list: [Category; 4],
}

/// All that the server can do.
#[derive(Debug)]
pub struct Capabilities {
    server: Server,
    limits: Limits,
    searching: Searching,
    categories: Categories,
}

/// The element that names the server `manteau`.
pub open spec fn default_server_xml() -> Seq<char> {
    "<server>"@ + "manteau"@ + "</server>"@
}

/// The element of the limits: 100 entries, and no more on demand.
pub open spec fn default_limits_xml() -> Seq<char> {
    "<limits default=\""@ + decimal_text(100) + "\" max=\""@ + decimal_text(100) + "\" />"@
}

/// The element of the five search modes of the protocol.
pub open spec fn default_searching_xml() -> Seq<char> {
    "<searching>"@ + (Search::xml_of("search"@, "yes"@, "q"@) + Search::xml_of(
        "tv-search"@,
        "yes"@,
        "q,season,ep"@,
    ) + Search::xml_of("movie-search"@, "yes"@, "q"@) + Search::xml_of(
        "music-search"@,
        "yes"@,
        "q"@,
    ) + Search::xml_of("book-search"@, "yes"@, "q"@)) + "</searching>"@
}

/// The element of the four categories of the protocol.
pub open spec fn default_categories_xml() -> Seq<char> {
    "<categories>"@ + (Category::xml_of(2000, "Movies"@) + Category::xml_of(3000, "Audio"@)
        + Category::xml_of(5000, "TV"@) + Category::xml_of(7000, "Books"@)) + "</categories>"@
}

/// The capabilities of the protocol, for the server `manteau`.
pub open spec fn default_capabilities_xml() -> Seq<char> {
    "<caps>"@ + default_server_xml() + default_limits_xml() + default_searching_xml()
        + default_categories_xml() + "</caps>"@
}

impl Server {
    pub closed spec fn xml(self) -> Seq<char> {
        "<server>"@ + self.title@ + "</server>"@
    }

    pub fn push_xml(&self, builder: &mut String)
        ensures
            final(builder)@ == old(builder)@ + self.xml(),
    {
        builder.append("<server>");
        builder.append(self.title);
        builder.append("</server>");
        assert(builder@ =~= old(builder)@ + self.xml());
    }
}

impl Default for Server {
    fn default() -> (server: Self)
        ensures
            server.xml() == default_server_xml(),
    {
        Self { title: "manteau" }
    }
}

impl Limits {
    pub closed spec fn xml(self) -> Seq<char> {
        "<limits default=\""@ + decimal_text(self.default as nat) + "\" max=\""@ + decimal_text(
            self.max as nat,
        ) + "\" />"@
    }

    pub fn push_xml(&self, builder: &mut String)
        ensures
            final(builder)@ == old(builder)@ + self.xml(),
    {
        builder.append("<limits default=\"");
        push_decimal(builder, self.default as u64);
        builder.append("\" max=\"");
        push_decimal(builder, self.max as u64);
        builder.append("\" />");
        assert(builder@ =~= old(builder)@ + self.xml());
    }
}

impl Default for Limits {
    fn default() -> (limits: Self)
        ensures
            limits.xml() == default_limits_xml(),
    {
        Self { default: 100, max: 100 }
    }
}

impl Search {
    /// `<tag available=".." supportedParams=".." />`, the two values as
    /// `Debug` quotes them.
    pub open spec fn xml_of(tag: Seq<char>, available: Seq<char>, supported_params: Seq<char>) -> Seq<
        char,
    > {
        "<"@ + tag + " available="@ + debug_text(available) + " supportedParams="@ + debug_text(
            supported_params,
        ) + " />"@
    }

    pub closed spec fn xml(self) -> Seq<char> {
        Self::xml_of(self.tag@, self.available@, self.supported_params@)
    }

    pub fn new(tag: &'static str, available: &'static str, supported_params: &'static str) -> (search:
        Self)
        ensures
            search.xml() == Self::xml_of(tag@, available@, supported_params@),
    {
        Self { tag, available, supported_params }
    }

    pub fn push_xml(&self, builder: &mut String)
        ensures
            final(builder)@ == old(builder)@ + self.xml(),
    {
        let available = debug_string(self.available);
        let supported = debug_string(self.supported_params);
        builder.append("<");
        builder.append(self.tag);
        builder.append(" available=");
        builder.append(available.as_str());
        builder.append(" supportedParams=");
        builder.append(supported.as_str());
        builder.append(" />");
        assert(builder@ =~= old(builder)@ + self.xml());
    }
}

/// The elements of the search modes `modes`, in order.
pub open spec fn searches_xml(modes: Seq<Search>) -> Seq<char>
    decreases modes.len(),
{
    if modes.len() == 0 {
        Seq::empty()
    } else {
        searches_xml(modes.drop_last()) + modes.last().xml()
    }
}

impl Searching {
    pub closed spec fn xml(self) -> Seq<char> {
        "<searching>"@ + searches_xml(self.modes@) + "</searching>"@
    }

    pub fn push_xml(&self, builder: &mut String)
        ensures
            final(builder)@ == old(builder)@ + self.xml(),
    {
        builder.append("<searching>");
        let ghost head = builder@;
        let mut i: usize = 0;
        assert(self.modes@.take(0) =~= Seq::empty());
        while i < 5
            invariant
                i <= 5,
                self.modes@.len() == 5,
                builder@ == head + searches_xml(self.modes@.take(i as int)),
            decreases 5 - i,
        {
            self.modes[i].push_xml(builder);
            assert(self.modes@.take(i + 1).drop_last() =~= self.modes@.take(i as int));
            assert(self.modes@.take(i + 1).last() == self.modes@[i as int]);
            assert(builder@ =~= head + searches_xml(self.modes@.take(i + 1)));
            i += 1;
        }
        assert(self.modes@.take(5) =~= self.modes@);
        builder.append("</searching>");
        assert(builder@ =~= old(builder)@ + self.xml());
    }
}

impl Default for Searching {
    fn default() -> (searching: Self)
        ensures
            searching.xml() == default_searching_xml(),
    {
        let searching = Self {
            modes: [
                Search::new("search", "yes", "q"),
                Search::new("tv-search", "yes", "q,season,ep"),
                Search::new("movie-search", "yes", "q"),
                Search::new("music-search", "yes", "q"),
                Search::new("book-search", "yes", "q"),
            ],
        };
        proof {
            let modes = searching.modes@;
            reveal_with_fuel(searches_xml, 6);
            assert(modes.drop_last().len() == 4);
            assert(modes.drop_last().drop_last().len() == 3);
            assert(modes.drop_last().drop_last().drop_last().len() == 2);
            assert(modes.drop_last().drop_last().drop_last().drop_last().len() == 1);
            assert(searches_xml(modes) =~= modes[0].xml() + modes[1].xml() + modes[2].xml()
                + modes[3].xml() + modes[4].xml());
        }
        searching
    }
}

impl Category {
    /// `<category id=".." name=".." />`, the name as `Debug` quotes it.
    pub open spec fn xml_of(id: nat, name: Seq<char>) -> Seq<char> {
        "<category id=\""@ + decimal_text(id) + "\" name="@ + debug_text(name) + " />"@
    }

    pub closed spec fn xml(self) -> Seq<char> {
        Self::xml_of(self.id as nat, self.name@)
    }

    pub fn new(id: u32, name: &'static str) -> (category: Self)
        ensures
            category.xml() == Self::xml_of(id as nat, name@),
    {
        Self { id, name }
    }

    pub fn push_xml(&self, builder: &mut String)
        ensures
            final(builder)@ == old(builder)@ + self.xml(),
    {
        let name = debug_string(self.name);
        builder.append("<category id=\"");
        push_decimal(builder, self.id as u64);
        builder.append("\" name=");
        builder.append(name.as_str());
        builder.append(" />");
        assert(builder@ =~= old(builder)@ + self.xml());
    }
}

/// The elements of the categories `list`, in order.
pub open spec fn categories_xml(list: Seq<Category>) -> Seq<char>
    decreases list.len(),
{
    if list.len() == 0 {
        Seq::empty()
    } else {
        categories_xml(list.drop_last()) + list.last().xml()
    }
}

impl Categories {
    pub closed spec fn xml(self) -> Seq<char> {
        "<categories>"@ + categories_xml(self.list@) + "</categories>"@
    }

    pub fn push_xml(&self, builder: &mut String)
        ensures
            final(builder)@ == old(builder)@ + self.xml(),
    {
        builder.append("<categories>");
        let ghost head = builder@;
        let mut i: usize = 0;
        assert(self.list@.take(0) =~= Seq::empty());
        while i < 4
            invariant
                i <= 4,
                self.list@.len() == 4,
                builder@ == head + categories_xml(self.list@.take(i as int)),
            decreases 4 - i,
        {
            self.list[i].push_xml(builder);
            assert(self.list@.take(i + 1).drop_last() =~= self.list@.take(i as int));
            assert(self.list@.take(i + 1).last() == self.list@[i as int]);
            assert(builder@ =~= head + categories_xml(self.list@.take(i + 1)));
            i += 1;
        }
        assert(self.list@.take(4) =~= self.list@);
        builder.append("</categories>");
        assert(builder@ =~= old(builder)@ + self.xml());
    }
}

impl Default for Categories {
    fn default() -> (categories: Self)
        ensures
            categories.xml() == default_categories_xml(),
    {
        let categories = Self {
            list: [
                Category::new(2000, "Movies"),
                Category::new(3000, "Audio"),
                Category::new(5000, "TV"),
                Category::new(7000, "Books"),
            ],
        };
        proof {
            let list = categories.list@;
            reveal_with_fuel(categories_xml, 5);
            assert(list.drop_last().len() == 3);
            assert(list.drop_last().drop_last().len() == 2);
            assert(list.drop_last().drop_last().drop_last().len() == 1);
            assert(categories_xml(list) =~= list[0].xml() + list[1].xml() + list[2].xml()
                + list[3].xml());
        }
        categories
    }
}

impl Capabilities {
    pub closed spec fn xml(self) -> Seq<char> {
        "<caps>"@ + self.server.xml() + self.limits.xml() + self.searching.xml()
            + self.categories.xml() + "</caps>"@
    }

    pub fn push_xml(&self, builder: &mut String)
        ensures
            final(builder)@ == old(builder)@ + self.xml(),
    {
        builder.append("<caps>");
        self.server.push_xml(builder);
        self.limits.push_xml(builder);
        self.searching.push_xml(builder);
        self.categories.push_xml(builder);
        builder.append("</caps>");
        assert(builder@ =~= old(builder)@ + self.xml());
    }
}

impl Default for Capabilities {
    fn default() -> (capabilities: Self)
        ensures
            capabilities.xml() == default_capabilities_xml(),
    {
        Self {
            server: Server::default(),
            limits: Limits::default(),
            searching: Searching::default(),
            categories: Categories::default(),
        }
    }
}

} // verus!
