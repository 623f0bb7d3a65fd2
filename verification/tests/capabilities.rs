use manteau::capabilities::{
    Capabilities, Categories, Category, Limits, Search, Searching, Server,
};

fn xml_of(push: impl Fn(&mut String)) -> String {
    let mut builder = String::from("^");
    push(&mut builder);
    assert!(builder.starts_with('^'));
    builder[1..].to_string()
}

const SEARCHING: &str = "<searching><search available=\"yes\" supportedParams=\"q\" />\
<tv-search available=\"yes\" supportedParams=\"q,season,ep\" />\
<movie-search available=\"yes\" supportedParams=\"q\" />\
<music-search available=\"yes\" supportedParams=\"q\" />\
<book-search available=\"yes\" supportedParams=\"q\" /></searching>";

const CATEGORIES: &str = "<categories><category id=\"2000\" name=\"Movies\" />\
<category id=\"3000\" name=\"Audio\" /><category id=\"5000\" name=\"TV\" />\
<category id=\"7000\" name=\"Books\" /></categories>";

#[test]
fn server_and_limits() {
    assert_eq!(
        xml_of(|b| Server::default().push_xml(b)),
        "<server>manteau</server>"
    );
    assert_eq!(
        xml_of(|b| Limits::default().push_xml(b)),
        "<limits default=\"100\" max=\"100\" />"
    );
}

#[test]
fn one_search_mode() {
    assert_eq!(
        xml_of(|b| Search::new("tv-search", "yes", "q,season,ep").push_xml(b)),
        "<tv-search available=\"yes\" supportedParams=\"q,season,ep\" />"
    );
    assert_eq!(
        xml_of(|b| Search::new("x", "n\"o", "a\\b").push_xml(b)),
        "<x available=\"n\\\"o\" supportedParams=\"a\\\\b\" />"
    );
}

#[test]
fn one_category() {
    assert_eq!(
        xml_of(|b| Category::new(2000, "Movies").push_xml(b)),
        "<category id=\"2000\" name=\"Movies\" />"
    );
    assert_eq!(
        xml_of(|b| Category::new(0, "").push_xml(b)),
        "<category id=\"0\" name=\"\" />"
    );
}

#[test]
fn the_five_modes_and_the_four_categories() {
    assert_eq!(xml_of(|b| Searching::default().push_xml(b)), SEARCHING);
    assert_eq!(xml_of(|b| Categories::default().push_xml(b)), CATEGORIES);
}

#[test]
fn the_whole_document() {
    let expected = format!(
        "<caps><server>manteau</server><limits default=\"100\" max=\"100\" />{SEARCHING}{CATEGORIES}</caps>"
    );
    assert_eq!(xml_of(|b| Capabilities::default().push_xml(b)), expected);
    assert_eq!(
        xml_of(|b| Capabilities::default().push_xml(b)),
        xml_of(|b| Capabilities::default().push_xml(b))
    );
}
