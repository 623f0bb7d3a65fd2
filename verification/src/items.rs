//! The items of a feed, counted: a feed holds the opening tag `<item>` once
//! for each entry and nowhere else, whatever the entries hold.

use crate::occurrences::{
    lemma_piece_without_end, lemma_plain_concat, lemma_tag_piece, occurrences, plain, tag,
};
use crate::prelude::{Category, EntryView};
use crate::text::decimal_text;
use crate::time::rfc2822_text;
use crate::torznab::{
    channel_head_onto, feed_text, item_onto, items_onto, rss_onto, torznab_attr, BuilderView, DOM,
};
use crate::xml::{
    attribute_text, attributes_text, empty_tag, end_tag, escape_char, escaped, start_tag,
    text_element,
};
use vstd::prelude::*;

verus! {

/// The opening tag of an item.
pub open spec fn item_tag() -> Seq<char> {
    tag("item"@)
}

/// How many items `text` opens.
pub open spec fn items_in(text: Seq<char>) -> nat {
    occurrences(text, item_tag())
}

/// Escaped text holds neither `<` nor `>`.
pub proof fn lemma_escaped_plain(s: Seq<char>)
    ensures
        plain(escaped(s)),
    decreases s.len(),
{
    if s.len() > 0 {
        lemma_escaped_plain(s.drop_last());
        assert(plain(escape_char(s.last())));
        lemma_plain_concat(escaped(s.drop_last()), escape_char(s.last()));
    }
}

/// Whether the names of `attributes` are plain.
pub open spec fn plain_names(attributes: Seq<(Seq<char>, Seq<char>)>) -> bool {
    forall|i: int| 0 <= i < attributes.len() ==> plain(#[trigger] attributes[i].0)
}

/// Attributes with plain names are plain as written, and end with `"`.
pub proof fn lemma_attributes_plain(attributes: Seq<(Seq<char>, Seq<char>)>)
    requires
        plain_names(attributes),
    ensures
        plain(attributes_text(attributes)),
        attributes.len() > 0 ==> attributes_text(attributes).len() > 0 && attributes_text(
            attributes,
        ).last() == '"',
    decreases attributes.len(),
{
    if attributes.len() > 0 {
        let rest = attributes.drop_last();
        let last = attributes.last();
        assert(plain_names(rest)) by {
            assert forall|i: int| 0 <= i < rest.len() implies plain(#[trigger] rest[i].0) by {
                assert(rest[i] == attributes[i]);
            }
        }
        lemma_attributes_plain(rest);
        lemma_escaped_plain(last.1);
        assert(plain(last.0));
        assert(plain(seq![' ']));
        assert(plain(seq!['=', '"']));
        assert(plain(seq!['"']));
        lemma_plain_concat(seq![' '], last.0);
        lemma_plain_concat(seq![' '] + last.0, seq!['=', '"']);
        lemma_plain_concat(seq![' '] + last.0 + seq!['=', '"'], escaped(last.1));
        lemma_plain_concat(seq![' '] + last.0 + seq!['=', '"'] + escaped(last.1), seq!['"']);
        lemma_plain_concat(attributes_text(rest), attribute_text(last.0, last.1));
    }
}

/// An opening tag adds one item where it is `<item>`, and none else.
pub proof fn lemma_start_tag(text: Seq<char>, name: Seq<char>, attributes: Seq<
    (Seq<char>, Seq<char>),
>)
    requires
        plain(name),
        plain_names(attributes),
    ensures
        items_in(text + start_tag(name, attributes)) == items_in(text) + if attributes.len() == 0
            && name == "item"@ {
            1nat
        } else {
            0nat
        },
{
    lemma_item_name();
    lemma_attributes_plain(attributes);
    let body = name + attributes_text(attributes);
    lemma_plain_concat(name, attributes_text(attributes));
    assert(start_tag(name, attributes) =~= tag(body));
    lemma_tag_piece(text, body, "item"@);
    if attributes.len() == 0 {
        assert(body =~= name);
    } else {
        assert(body.last() == '"');
    }
}

/// A tag that closes itself adds no item.
pub proof fn lemma_empty_tag(text: Seq<char>, name: Seq<char>, attributes: Seq<
    (Seq<char>, Seq<char>),
>)
    requires
        plain(name),
        plain_names(attributes),
    ensures
        items_in(text + empty_tag(name, attributes)) == items_in(text),
{
    lemma_item_name();
    lemma_attributes_plain(attributes);
    let body = name + attributes_text(attributes) + seq!['/'];
    lemma_plain_concat(name, attributes_text(attributes));
    assert(plain(seq!['/']));
    lemma_plain_concat(name + attributes_text(attributes), seq!['/']);
    assert(empty_tag(name, attributes) =~= tag(body));
    lemma_tag_piece(text, body, "item"@);
    assert(body.last() == '/');
}

/// A closing tag adds no item.
pub proof fn lemma_end_tag(text: Seq<char>, name: Seq<char>)
    requires
        plain(name),
    ensures
        items_in(text + end_tag(name)) == items_in(text),
{
    lemma_item_name();
    let body = seq!['/'] + name;
    assert(plain(seq!['/']));
    lemma_plain_concat(seq!['/'], name);
    assert(end_tag(name) =~= tag(body));
    lemma_tag_piece(text, body, "item"@);
    assert(body[0] == '/');
}

/// An element that holds text only adds no item, whatever the text, unless
/// it is called `item` itself.
pub proof fn lemma_text_element(text: Seq<char>, name: Seq<char>, content: Seq<char>)
    requires
        plain(name),
        name != "item"@,
    ensures
        items_in(text + text_element(name, content)) == items_in(text),
{
    lemma_item_name();
    let opened = text + start_tag(name, Seq::empty());
    assert(plain_names(Seq::<(Seq<char>, Seq<char>)>::empty()));
    lemma_start_tag(text, name, Seq::empty());
    lemma_escaped_plain(content);
    lemma_piece_without_end(opened, escaped(content), item_tag());
    lemma_end_tag(opened + escaped(content), name);
    assert(text + text_element(name, content) =~= opened + escaped(content) + end_tag(name));
}

/// The name `item` is plain, and its tag ends with `>`.
pub proof fn lemma_item_name()
    ensures
        plain("item"@),
        "item"@ =~= seq!['i', 't', 'e', 'm'],
        item_tag().last() == '>',
        item_tag().len() > 0,
{
    reveal_strlit("item");
}

/// The names of the elements and attributes of a feed are plain, and none
/// but `item` is `item`.
pub proof fn lemma_names_of_the_feed()
    ensures
        plain("rss"@) && "rss"@ != "item"@,
        plain("channel"@) && "channel"@ != "item"@,
        plain("atom:link"@) && "atom:link"@ != "item"@,
        plain("title"@) && "title"@ != "item"@,
        plain("description"@) && "description"@ != "item"@,
        plain("link"@) && "link"@ != "item"@,
        plain("language"@) && "language"@ != "item"@,
        plain("category"@) && "category"@ != "item"@,
        plain("guid"@) && "guid"@ != "item"@,
        plain("type"@) && "type"@ != "item"@,
        plain("comments"@) && "comments"@ != "item"@,
        plain("pubDate"@) && "pubDate"@ != "item"@,
        plain("size"@) && "size"@ != "item"@,
        plain("enclosure"@) && "enclosure"@ != "item"@,
        plain("torznab:attr"@) && "torznab:attr"@ != "item"@,
        plain("item"@),
        plain("version"@),
        plain("xmlns:atom"@),
        plain("xmlns:torznab"@),
        plain("href"@),
        plain("rel"@),
        plain("url"@),
        plain("length"@),
        plain("name"@),
        plain("value"@),
{
    reveal_strlit("item");
    reveal_strlit("rss");
    reveal_strlit("channel");
    reveal_strlit("atom:link");
    reveal_strlit("title");
    reveal_strlit("description");
    reveal_strlit("link");
    reveal_strlit("language");
    reveal_strlit("category");
    reveal_strlit("guid");
    reveal_strlit("type");
    reveal_strlit("comments");
    reveal_strlit("pubDate");
    reveal_strlit("size");
    reveal_strlit("enclosure");
    reveal_strlit("torznab:attr");
    reveal_strlit("version");
    reveal_strlit("xmlns:atom");
    reveal_strlit("xmlns:torznab");
    reveal_strlit("href");
    reveal_strlit("rel");
    reveal_strlit("url");
    reveal_strlit("length");
    reveal_strlit("name");
    reveal_strlit("value");
    assert("rss"@.len() != "item"@.len());
    assert("channel"@.len() != "item"@.len());
    assert("atom:link"@.len() != "item"@.len());
    assert("title"@.len() != "item"@.len());
    assert("description"@.len() != "item"@.len());
    assert("link"@[0] != "item"@[0]);
    assert("language"@.len() != "item"@.len());
    assert("category"@.len() != "item"@.len());
    assert("guid"@[0] != "item"@[0]);
    assert("type"@[0] != "item"@[0]);
    assert("comments"@.len() != "item"@.len());
    assert("pubDate"@.len() != "item"@.len());
    assert("size"@[0] != "item"@[0]);
    assert("enclosure"@.len() != "item"@.len());
    assert("torznab:attr"@.len() != "item"@.len());
}

/// One attribute of the protocol's own adds no item.
pub proof fn lemma_torznab_attr(text: Seq<char>, name: Seq<char>, value: Seq<char>)
    ensures
        items_in(text + torznab_attr(name, value)) == items_in(text),
{
    lemma_names_of_the_feed();
    let attributes = seq![("name"@, name), ("value"@, value)];
    assert(plain_names(attributes)) by {
        assert forall|i: int| 0 <= i < attributes.len() implies plain(
            #[trigger] attributes[i].0,
        ) by {
            if i == 0 {
            } else {
                assert(i == 1);
            }
        }
    }
    lemma_empty_tag(text, "torznab:attr"@, attributes);
}

/// The item of one entry opens one item, whatever the entry holds.
pub proof fn lemma_item(before: Seq<char>, category: Category, entry: EntryView)
    ensures
        items_in(item_onto(before, category, entry)) == items_in(before) + 1,
{
    lemma_names_of_the_feed();
    let none = Seq::<(Seq<char>, Seq<char>)>::empty();
    assert(plain_names(none));
    let code = decimal_text(category.code());
    let t1 = before + start_tag("item"@, none);
    lemma_start_tag(before, "item"@, none);
    let t2 = t1 + text_element("title"@, entry.name);
    lemma_text_element(t1, "title"@, entry.name);
    let t3 = t2 + text_element("guid"@, entry.url);
    lemma_text_element(t2, "guid"@, entry.url);
    let t4 = t3 + text_element("type"@, "public"@);
    lemma_text_element(t3, "type"@, "public"@);
    let t5 = t4 + text_element("comments"@, entry.url);
    lemma_text_element(t4, "comments"@, entry.url);
    let t6 = t5 + text_element("pubDate"@, rfc2822_text(entry.date));
    lemma_text_element(t5, "pubDate"@, rfc2822_text(entry.date));
    let t7 = t6 + text_element("size"@, decimal_text(entry.size));
    lemma_text_element(t6, "size"@, decimal_text(entry.size));
    let t8 = t7 + text_element("link"@, entry.magnet);
    lemma_text_element(t7, "link"@, entry.magnet);
    let enclosure = seq![
        ("url"@, entry.magnet),
        ("length"@, decimal_text(entry.size)),
        ("type"@, "application/x-bittorrent"@),
    ];
    assert(plain_names(enclosure)) by {
        assert forall|i: int| 0 <= i < enclosure.len() implies plain(
            #[trigger] enclosure[i].0,
        ) by {
            if i == 0 {
            } else if i == 1 {
            } else {
                assert(i == 2);
            }
        }
    }
    let t9 = t8 + empty_tag("enclosure"@, enclosure);
    lemma_empty_tag(t8, "enclosure"@, enclosure);
    let t10 = t9 + empty_tag("description"@, none);
    lemma_empty_tag(t9, "description"@, none);
    let t11 = t10 + text_element("category"@, code);
    lemma_text_element(t10, "category"@, code);
    let t12 = t11 + torznab_attr("genre"@, ""@);
    lemma_torznab_attr(t11, "genre"@, ""@);
    let t13 = t12 + torznab_attr("downloadvolumefactor"@, "0"@);
    lemma_torznab_attr(t12, "downloadvolumefactor"@, "0"@);
    let t14 = t13 + torznab_attr("uploadvolumefactor"@, "1"@);
    lemma_torznab_attr(t13, "uploadvolumefactor"@, "1"@);
    let t15 = t14 + torznab_attr("magneturl"@, entry.magnet);
    lemma_torznab_attr(t14, "magneturl"@, entry.magnet);
    let t16 = t15 + torznab_attr("category"@, code);
    lemma_torznab_attr(t15, "category"@, code);
    let t17 = t16 + torznab_attr("seeders"@, decimal_text(entry.seeders));
    lemma_torznab_attr(t16, "seeders"@, decimal_text(entry.seeders));
    let t18 = t17 + torznab_attr("peers"@, decimal_text(entry.leechers));
    lemma_torznab_attr(t17, "peers"@, decimal_text(entry.leechers));
    let t19 = t18 + end_tag("item"@);
    lemma_end_tag(t18, "item"@);
    assert(item_onto(before, category, entry) == t19);
}

/// The items of some entries open one item for each entry.
pub proof fn lemma_items(before: Seq<char>, category: Category, entries: Seq<EntryView>)
    ensures
        items_in(items_onto(before, category, entries)) == items_in(before) + entries.len(),
    decreases entries.len(),
{
    if entries.len() > 0 {
        lemma_items(before, category, entries.drop_last());
        lemma_item(items_onto(before, category, entries.drop_last()), category, entries.last());
    }
}

/// What the channel says of the server opens no item.
pub proof fn lemma_channel_head(before: Seq<char>, builder: BuilderView)
    ensures
        items_in(channel_head_onto(before, builder)) == items_in(before),
{
    lemma_names_of_the_feed();
    let none = Seq::<(Seq<char>, Seq<char>)>::empty();
    assert(plain_names(none));
    let root = seq![
        ("version"@, "2.0"@),
        ("xmlns:atom"@, "http://www.w3.org/2005/Atom"@),
        ("xmlns:torznab"@, "http://torznab.com/schemas/2015/feed"@),
    ];
    assert(plain_names(root)) by {
        assert forall|i: int| 0 <= i < root.len() implies plain(#[trigger] root[i].0) by {
            if i == 0 {
            } else if i == 1 {
            } else {
                assert(i == 2);
            }
        }
    }
    let own = seq![
        ("href"@, builder.base_url),
        ("rel"@, "self"@),
        ("type"@, "application/rss+xml"@),
    ];
    assert(plain_names(own)) by {
        assert forall|i: int| 0 <= i < own.len() implies plain(#[trigger] own[i].0) by {
            if i == 0 {
            } else if i == 1 {
            } else {
                assert(i == 2);
            }
        }
    }
    let t1 = before + start_tag("rss"@, root);
    lemma_start_tag(before, "rss"@, root);
    let t2 = t1 + start_tag("channel"@, none);
    lemma_start_tag(t1, "channel"@, none);
    let t3 = t2 + empty_tag("atom:link"@, own);
    lemma_empty_tag(t2, "atom:link"@, own);
    let t4 = t3 + text_element("title"@, builder.name);
    lemma_text_element(t3, "title"@, builder.name);
    let t5 = t4 + text_element("description"@, builder.description);
    lemma_text_element(t4, "description"@, builder.description);
    let t6 = t5 + text_element("link"@, builder.base_url);
    lemma_text_element(t5, "link"@, builder.base_url);
    let t7 = t6 + text_element("language"@, "en-US"@);
    lemma_text_element(t6, "language"@, "en-US"@);
    let t8 = t7 + text_element("category"@, "search"@);
    lemma_text_element(t7, "category"@, "search"@);
    assert(channel_head_onto(before, builder) == t8);
}

/// A text before two others is before the two as one.
pub proof fn lemma_concat_associative(a: Seq<char>, b: Seq<char>, c: Seq<char>)
    ensures
        (a + b) + c == a + (b + c),
{
    assert((a + b) + c =~= a + (b + c));
}

/// The item written onto two texts is the first text and then the item
/// written onto the second.
pub proof fn lemma_item_onto_prefix(
    first: Seq<char>,
    second: Seq<char>,
    category: Category,
    entry: EntryView,
)
    ensures
        item_onto(first + second, category, entry) == first + item_onto(second, category, entry),
{
    let none = Seq::<(Seq<char>, Seq<char>)>::empty();
    let code = decimal_text(category.code());
    let enclosure = seq![
        ("url"@, entry.magnet),
        ("length"@, decimal_text(entry.size)),
        ("type"@, "application/x-bittorrent"@),
    ];
    let t0 = second;
    let part1 = start_tag("item"@, none);
    let t1 = t0 + part1;
    lemma_concat_associative(first, t0, part1);
    let part2 = text_element("title"@, entry.name);
    let t2 = t1 + part2;
    lemma_concat_associative(first, t1, part2);
    let part3 = text_element("guid"@, entry.url);
    let t3 = t2 + part3;
    lemma_concat_associative(first, t2, part3);
    let part4 = text_element("type"@, "public"@);
    let t4 = t3 + part4;
    lemma_concat_associative(first, t3, part4);
    let part5 = text_element("comments"@, entry.url);
    let t5 = t4 + part5;
    lemma_concat_associative(first, t4, part5);
    let part6 = text_element("pubDate"@, rfc2822_text(entry.date));
    let t6 = t5 + part6;
    lemma_concat_associative(first, t5, part6);
    let part7 = text_element("size"@, decimal_text(entry.size));
    let t7 = t6 + part7;
    lemma_concat_associative(first, t6, part7);
    let part8 = text_element("link"@, entry.magnet);
    let t8 = t7 + part8;
    lemma_concat_associative(first, t7, part8);
    let part9 = empty_tag("enclosure"@, enclosure);
    let t9 = t8 + part9;
    lemma_concat_associative(first, t8, part9);
    let part10 = empty_tag("description"@, none);
    let t10 = t9 + part10;
    lemma_concat_associative(first, t9, part10);
    let part11 = text_element("category"@, code);
    let t11 = t10 + part11;
    lemma_concat_associative(first, t10, part11);
    let part12 = torznab_attr("genre"@, ""@);
    let t12 = t11 + part12;
    lemma_concat_associative(first, t11, part12);
    let part13 = torznab_attr("downloadvolumefactor"@, "0"@);
    let t13 = t12 + part13;
    lemma_concat_associative(first, t12, part13);
    let part14 = torznab_attr("uploadvolumefactor"@, "1"@);
    let t14 = t13 + part14;
    lemma_concat_associative(first, t13, part14);
    let part15 = torznab_attr("magneturl"@, entry.magnet);
    let t15 = t14 + part15;
    lemma_concat_associative(first, t14, part15);
    let part16 = torznab_attr("category"@, code);
    let t16 = t15 + part16;
    lemma_concat_associative(first, t15, part16);
    let part17 = torznab_attr("seeders"@, decimal_text(entry.seeders));
    let t17 = t16 + part17;
    lemma_concat_associative(first, t16, part17);
    let part18 = torznab_attr("peers"@, decimal_text(entry.leechers));
    let t18 = t17 + part18;
    lemma_concat_associative(first, t17, part18);
    let part19 = end_tag("item"@);
    let t19 = t18 + part19;
    lemma_concat_associative(first, t18, part19);
    assert(item_onto(second, category, entry) == t19);
    assert(item_onto(first + second, category, entry) == first + t19);
}

/// The items written onto a text are the text and then the items written
/// onto nothing.
pub proof fn lemma_items_onto_prefix(before: Seq<char>, category: Category, entries: Seq<EntryView>)
    ensures
        items_onto(before, category, entries) == before + items_onto(
            Seq::empty(),
            category,
            entries,
        ),
    decreases entries.len(),
{
    if entries.len() == 0 {
        assert(before + Seq::<char>::empty() =~= before);
    } else {
        lemma_items_onto_prefix(before, category, entries.drop_last());
        let rest = items_onto(Seq::empty(), category, entries.drop_last());
        lemma_item_onto_prefix(before, rest, category, entries.last());
    }
}

/// The feed written onto a text is the text and then the feed written onto
/// nothing.
pub proof fn lemma_rss_onto_prefix(
    before: Seq<char>,
    builder: BuilderView,
    category: Category,
    entries: Seq<EntryView>,
)
    ensures
        rss_onto(before, builder, category, entries) == before + rss_onto(
            Seq::empty(),
            builder,
            category,
            entries,
        ),
{
    let head = channel_head_onto(Seq::empty(), builder);
    assert(channel_head_onto(before, builder) =~= before + head);
    lemma_items_onto_prefix(before + head, category, entries);
    lemma_items_onto_prefix(head, category, entries);
    let items = items_onto(Seq::empty(), category, entries);
    assert(rss_onto(before, builder, category, entries) =~= before + (head + items + end_tag(
        "channel"@,
    ) + end_tag("rss"@)));
}

/// The declaration that opens a document opens no item.
pub proof fn lemma_declaration()
    ensures
        items_in(DOM@) == 0,
{
    lemma_item_name();
    reveal_strlit("<?xml version=\"1.0\" encoding=\"UTF-8\"?>");
    let body = DOM@.subrange(1, 37);
    assert(DOM@ =~= tag(body));
    assert(plain(body));
    assert(body[0] == '?');
    lemma_tag_piece(Seq::empty(), body, "item"@);
    assert(Seq::<char>::empty() + tag(body) =~= tag(body));
}

/// A feed built from some entries holds the opening tag of an item once for
/// each entry and nowhere else: no text of an entry and no text of the
/// server can pass for one.
pub proof fn lemma_feed_holds_one_item_per_entry(
    builder: BuilderView,
    category: Category,
    entries: Seq<EntryView>,
)
    ensures
        items_in(feed_text(builder, category, entries)) == entries.len(),
{
    lemma_names_of_the_feed();
    lemma_declaration();
    lemma_rss_onto_prefix(DOM@, builder, category, entries);
    let head = channel_head_onto(DOM@, builder);
    lemma_channel_head(DOM@, builder);
    lemma_items(head, category, entries);
    let items = items_onto(head, category, entries);
    lemma_end_tag(items, "channel"@);
    lemma_end_tag(items + end_tag("channel"@), "rss"@);
}

} // verus!
