//! Writing XML through `quick_xml`, and what it writes.
//!
//! The writer fills a buffer. Its contents are modelled as the text written
//! so far; each event appends the text that the functions below spell out.
//! That holds of a writer that does not indent, and `XmlWriter` holds none
//! but such a writer.

use quick_xml::events::{BytesEnd, BytesStart, BytesText, Event};
use quick_xml::writer::Writer;
use vstd::prelude::*;

verus! {

/// `quick_xml::writer::Writer`, which writes events into what it holds.
#[verifier::external_type_specification]
#[verifier::external_body]
#[verifier::reject_recursive_types(W)]
pub struct ExWriter<W>(Writer<W>);

/// The text that the buffer of `writer` holds, read as UTF-8.
pub uninterp spec fn written(writer: Writer<Vec<u8>>) -> Seq<char>;

/// Whether `writer` was made without indentation, so that it writes each
/// event as it is, with nothing before it.
pub uninterp spec fn unindented(writer: Writer<Vec<u8>>) -> bool;

/// A writer of XML into a buffer of its own, without indentation: what it
/// has written is the events given to it, one after the other.
pub struct XmlWriter {
    inner: Writer<Vec<u8>>,
}

impl View for XmlWriter {
    type V = Seq<char>;

    /// The text written so far.
    closed spec fn view(&self) -> Seq<char> {
        written(self.inner)
    }
}

/// One attribute of a tag.
pub struct Attribute<'a> {
    pub name: &'a str,
    pub value: &'a str,
}

/// One event of a document.
pub enum Piece<'a> {
    /// An opening tag with its attributes.
    Start(&'a str, Vec<Attribute<'a>>),
    /// A tag that closes itself, with its attributes.
    Empty(&'a str, Vec<Attribute<'a>>),
    /// A closing tag.
    End(&'a str),
    /// Text between tags.
    Text(&'a str),
}

/// What stands for `c` in text and in attribute values.
pub open spec fn escape_char(c: char) -> Seq<char> {
    if c == '<' {
        seq!['&', 'l', 't', ';']
    } else if c == '>' {
        seq!['&', 'g', 't', ';']
    } else if c == '&' {
        seq!['&', 'a', 'm', 'p', ';']
    } else if c == '\'' {
        seq!['&', 'a', 'p', 'o', 's', ';']
    } else if c == '"' {
        seq!['&', 'q', 'u', 'o', 't', ';']
    } else {
        seq![c]
    }
}

/// `s` with `<`, `>`, `&`, `'` and `"` replaced by their entities.
pub open spec fn escaped(s: Seq<char>) -> Seq<char>
    decreases s.len(),
{
    if s.len() == 0 {
        Seq::empty()
    } else {
        escaped(s.drop_last()) + escape_char(s.last())
    }
}

/// One attribute inside a tag: a space, the name, `="`, the escaped value
/// and `"`.
pub open spec fn attribute_text(name: Seq<char>, value: Seq<char>) -> Seq<char> {
    seq![' '] + name + seq!['=', '"'] + escaped(value) + seq!['"']
}

/// The attributes inside a tag, in order.
pub open spec fn attributes_text(attributes: Seq<(Seq<char>, Seq<char>)>) -> Seq<char>
    decreases attributes.len(),
{
    if attributes.len() == 0 {
        Seq::empty()
    } else {
        attributes_text(attributes.drop_last()) + attribute_text(
            attributes.last().0,
            attributes.last().1,
        )
    }
}

pub open spec fn start_tag(tag: Seq<char>, attributes: Seq<(Seq<char>, Seq<char>)>) -> Seq<char> {
    seq!['<'] + tag + attributes_text(attributes) + seq!['>']
}

pub open spec fn empty_tag(tag: Seq<char>, attributes: Seq<(Seq<char>, Seq<char>)>) -> Seq<char> {
    seq!['<'] + tag + attributes_text(attributes) + seq!['/', '>']
}

pub open spec fn end_tag(tag: Seq<char>) -> Seq<char> {
    seq!['<', '/'] + tag + seq!['>']
}

/// An element that holds text only.
pub open spec fn text_element(tag: Seq<char>, text: Seq<char>) -> Seq<char> {
    start_tag(tag, Seq::empty()) + escaped(text) + end_tag(tag)
}

/// Names and values of `attributes` as plain text.
pub open spec fn pairs(attributes: Seq<Attribute>) -> Seq<(Seq<char>, Seq<char>)> {
    attributes.map_values(|a: Attribute| (a.name@, a.value@))
}

/// The text of one event.
pub open spec fn piece_text(piece: Piece) -> Seq<char> {
    match piece {
        Piece::Start(tag, attributes) => start_tag(tag@, pairs(attributes@)),
        Piece::Empty(tag, attributes) => empty_tag(tag@, pairs(attributes@)),
        Piece::End(tag) => end_tag(tag@),
        Piece::Text(text) => escaped(text@),
    }
}

/// `Writer::new` on an empty buffer: nothing is written yet, and the
/// writer does not indent.
#[verifier::external_body]
fn new_writer() -> (writer: Writer<Vec<u8>>)
    ensures
        written(writer) == Seq::<char>::empty(),
        unindented(writer),
{
    Writer::new(Vec::new())
}

/// `Writer::write_event` on a writer that does not indent, which appends
/// the event's text to the buffer: for a tag, `<`, the name, each attribute
/// with its value escaped, and `>` or `/>`; for a closing tag, `</`, the
/// name and `>`; for text, the text escaped. A write into a `Vec` does not
/// fail, and no event makes the writer indent.
#[verifier::external_body]
fn write_piece(writer: Writer<Vec<u8>>, piece: &Piece) -> (out: Writer<Vec<u8>>)
    requires
        unindented(writer),
    ensures
        written(out) == written(writer) + piece_text(*piece),
        unindented(out),
{
    let mut out = writer;
    let event = match piece {
        Piece::Start(tag, list) => Event::Start(
            BytesStart::new(*tag).with_attributes(list.iter().map(|a| (a.name, a.value))),
        ),
        Piece::Empty(tag, list) => Event::Empty(
            BytesStart::new(*tag).with_attributes(list.iter().map(|a| (a.name, a.value))),
        ),
        Piece::End(tag) => Event::End(BytesEnd::new(*tag)),
        Piece::Text(text) => Event::Text(BytesText::new(text)),
    };
    let _ = out.write_event(event);
    out
}

/// `Writer::into_inner`, the buffer read as text.
#[verifier::external_body]
fn into_text(writer: Writer<Vec<u8>>) -> (text: String)
    ensures
        text@ == written(writer),
{
    String::from_utf8_lossy(&writer.into_inner()).into_owned()
}

impl XmlWriter {
    #[verifier::type_invariant]
    spec fn plain(self) -> bool {
        unindented(self.inner)
    }

    /// A writer that has written nothing.
    pub fn new() -> (writer: Self)
        ensures
            writer@ == Seq::<char>::empty(),
    {
        XmlWriter { inner: new_writer() }
    }

    /// The writer after one more event.
    pub fn write(self, piece: &Piece) -> (out: Self)
        ensures
            out@ == self@ + piece_text(*piece),
    {
        proof {
            use_type_invariant(&self);
        }
        XmlWriter { inner: write_piece(self.inner, piece) }
    }

    /// What was written.
    pub fn into_text(self) -> (text: String)
        ensures
            text@ == self@,
    {
        into_text(self.inner)
    }
}

/// Writes `<tag>`.
pub fn write_start(writer: XmlWriter, tag: &str) -> (out: XmlWriter)
    ensures
        out@ == writer@ + start_tag(tag@, Seq::empty()),
{
    let piece = Piece::Start(tag, Vec::new());
    assert(pairs(Seq::<Attribute>::empty()) =~= Seq::empty());
    writer.write(&piece)
}

/// Writes `</tag>`.
pub fn write_end(writer: XmlWriter, tag: &str) -> (out: XmlWriter)
    ensures
        out@ == writer@ + end_tag(tag@),
{
    let piece = Piece::End(tag);
    writer.write(&piece)
}

/// Writes `<tag>text</tag>`, the text escaped.
pub fn write_text_element(writer: XmlWriter, tag: &str, text: &str) -> (out: XmlWriter)
    ensures
        out@ == writer@ + text_element(tag@, text@),
{
    let opened = write_start(writer, tag);
    let piece = Piece::Text(text);
    let filled = opened.write(&piece);
    let out = write_end(filled, tag);
    assert(out@ =~= writer@ + text_element(tag@, text@));
    out
}

/// Writes `<tag/>`.
pub fn write_empty(writer: XmlWriter, tag: &str) -> (out: XmlWriter)
    ensures
        out@ == writer@ + empty_tag(tag@, Seq::empty()),
{
    let piece = Piece::Empty(tag, Vec::new());
    assert(pairs(Seq::<Attribute>::empty()) =~= Seq::empty());
    writer.write(&piece)
}

/// Writes a tag that closes itself, with two attributes.
pub fn write_empty2(
    writer: XmlWriter,
    tag: &str,
    name1: &str,
    value1: &str,
    name2: &str,
    value2: &str,
) -> (out: XmlWriter)
    ensures
        out@ == writer@ + empty_tag(tag@, seq![(name1@, value1@), (name2@, value2@)]),
{
    let mut list: Vec<Attribute> = Vec::new();
    list.push(Attribute { name: name1, value: value1 });
    list.push(Attribute { name: name2, value: value2 });
    assert(pairs(list@) =~= seq![(name1@, value1@), (name2@, value2@)]);
    let piece = Piece::Empty(tag, list);
    writer.write(&piece)
}

/// The three attributes as a list.
fn three<'a>(
    name1: &'a str,
    value1: &'a str,
    name2: &'a str,
    value2: &'a str,
    name3: &'a str,
    value3: &'a str,
) -> (list: Vec<Attribute<'a>>)
    ensures
        pairs(list@) == seq![(name1@, value1@), (name2@, value2@), (name3@, value3@)],
{
    let mut list: Vec<Attribute> = Vec::new();
    list.push(Attribute { name: name1, value: value1 });
    list.push(Attribute { name: name2, value: value2 });
    list.push(Attribute { name: name3, value: value3 });
    assert(pairs(list@) =~= seq![(name1@, value1@), (name2@, value2@), (name3@, value3@)]);
    list
}

/// Writes a tag that closes itself, with three attributes.
pub fn write_empty3(
    writer: XmlWriter,
    tag: &str,
    name1: &str,
    value1: &str,
    name2: &str,
    value2: &str,
    name3: &str,
    value3: &str,
) -> (out: XmlWriter)
    ensures
        out@ == writer@ + empty_tag(
            tag@,
            seq![(name1@, value1@), (name2@, value2@), (name3@, value3@)],
        ),
{
    let piece = Piece::Empty(tag, three(name1, value1, name2, value2, name3, value3));
    writer.write(&piece)
}

/// Writes an opening tag with three attributes.
pub fn write_start3(
    writer: XmlWriter,
    tag: &str,
    name1: &str,
    value1: &str,
    name2: &str,
    value2: &str,
    name3: &str,
    value3: &str,
) -> (out: XmlWriter)
    ensures
        out@ == writer@ + start_tag(
            tag@,
            seq![(name1@, value1@), (name2@, value2@), (name3@, value3@)],
        ),
{
    let piece = Piece::Start(tag, three(name1, value1, name2, value2, name3, value3));
    writer.write(&piece)
}

} // verus!
