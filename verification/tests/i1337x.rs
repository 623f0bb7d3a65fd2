use manteau::i1337x::search::{parse, parse_list_row, parse_rows};
use manteau::i1337x::torrent::{magnet_among, parse_magnet};
use manteau::i1337x::{Indexer1337x, Indexer1337xConfig, NAME};
use manteau::numeric::ParseNumberError;
use manteau::page::{RawLink, RawRow};
use manteau::prelude::{
    Category, IndexerEntry, IndexerError, IndexerErrorReason, IndexerResult,
};
use manteau::text::IntErrorKind;
use manteau::time::DateErrorKind;

const NAMES: [&str; 4] = [
    "How I Met Your Mother - Season 4",
    "How I Met Your Mother S01-S09 COMPLETE DVDrip mixed",
    "How I Met Your Mother Season 7 Complete HDTV Bzingaz",
    "How I Met Your Mother [KiSS] - Season 1 Complete E-Subs WEB-Dl",
];

fn name_of(index: usize) -> String {
    match NAMES.get(index) {
        Some(name) => name.to_string(),
        None => format!("Name {index}"),
    }
}

fn row_html(index: usize, seeds: Option<&str>) -> String {
    let seeds = match seeds {
        Some(count) => format!("<td class=\"coll-2 seeds\">{count}</td>"),
        None => String::new(),
    };
    let name = name_of(index);
    format!(
        "<tr><td class=\"coll-1 name\"><a href=\"/sub/{index}/\" class=\"icon\"><i></i></a>\
<a href=\"/torrent/{index}/name-{index}/\"> {name} </a></td>{seeds}\
<td class=\"coll-3 leeches\">9</td><td class=\"coll-date\">Jul. 18th '20</td>\
<td class=\"coll-4 size mob-uploader\">4.1 GB<span class=\"seeds\">26</span></td></tr>"
    )
}

fn page(rows: &[String]) -> String {
    format!(
        "<html><body><table class=\"table-list\"><thead><tr><th>name</th></tr></thead><tbody>{}</tbody></table></body></html>",
        rows.join("")
    )
}

fn detail(links: &[&str]) -> String {
    let items: String = links
        .iter()
        .map(|href| format!("<li><a href=\"{href}\">link</a></li>"))
        .collect();
    format!(
        "<html><body><main class=\"container\"><div class=\"row\"><div class=\"page-content\">\
<div class=\"box-info torrent-detail-page\"><div class=\"no-top-radius\"><div><ul>\
<li><a>no target</a></li>{items}</ul></div></div></div></div></div></main></body></html>"
    )
}

fn raw() -> RawRow {
    RawRow {
        link: Some(RawLink {
            text: "\n  How I Met Your Mother - Season 4 ".into(),
            href: Some("/torrent/1/x/".into()),
        }),
        size: Some("4.1 GB".into()),
        seeders: Some("26".into()),
        leechers: Some("9".into()),
        date: Some("Jul. 18th '20".into()),
        magnet: None,
    }
}

fn reason(outcome: Result<IndexerEntry, IndexerError>) -> IndexerErrorReason {
    let error = outcome.unwrap_err();
    assert_eq!(error.origin, "1337x");
    error.reason
}

#[test]
fn a_row_that_is_whole() {
    let entry = parse_list_row("https://1337x.to", &raw(), 2023).unwrap();
    assert_eq!(entry.name, "How I Met Your Mother - Season 4");
    assert_eq!(entry.url, "https://1337x.to/torrent/1/x/");
    assert_eq!(entry.magnet, "/torrent/1/x/");
    assert_eq!(entry.seeders, 26);
    assert_eq!(entry.leechers, 9);
    assert_eq!(entry.size, 4_099_999_999);
    assert_eq!(entry.date.unix(), 1595062800);
    assert_eq!(entry.origin, NAME);
}

#[test]
fn a_row_in_the_current_year() {
    let mut row = raw();
    row.date = Some("9pm Mar. 21st".into());
    assert_eq!(
        parse_list_row("b", &row, 2023).unwrap().date.unix(),
        1679432400
    );
}

#[test]
fn each_field_of_a_row_has_its_error() {
    let mut row = raw();
    row.link = None;
    assert!(matches!(
        reason(parse_list_row("b", &row, 2023)),
        IndexerErrorReason::EntryLinkNotFound
    ));
    let mut row = raw();
    row.link.as_mut().unwrap().href = None;
    assert!(matches!(
        reason(parse_list_row("b", &row, 2023)),
        IndexerErrorReason::EntryLinkNotFound
    ));
    let mut row = raw();
    row.seeders = None;
    assert!(matches!(
        reason(parse_list_row("b", &row, 2023)),
        IndexerErrorReason::EntrySeedersNotFound
    ));
    let mut row = raw();
    row.seeders = Some(" 26".into());
    assert!(matches!(
        reason(parse_list_row("b", &row, 2023)),
        IndexerErrorReason::EntrySeedersInvalid {
            cause: ParseNumberError::InvalidBaseNumber(IntErrorKind::InvalidDigit)
        }
    ));
    let mut row = raw();
    row.leechers = None;
    assert!(matches!(
        reason(parse_list_row("b", &row, 2023)),
        IndexerErrorReason::EntryLeechersNotFound
    ));
    let mut row = raw();
    row.leechers = Some("".into());
    assert!(matches!(
        reason(parse_list_row("b", &row, 2023)),
        IndexerErrorReason::EntryLeechersInvalid {
            cause: ParseNumberError::InvalidBaseNumber(IntErrorKind::Empty)
        }
    ));
    let mut row = raw();
    row.size = None;
    assert!(matches!(
        reason(parse_list_row("b", &row, 2023)),
        IndexerErrorReason::EntrySizeNotFound
    ));
    let mut row = raw();
    row.size = Some("big".into());
    match reason(parse_list_row("b", &row, 2023)) {
        IndexerErrorReason::EntrySizeInvalid { cause } => {
            assert_eq!(cause, "big".parse::<bytesize::ByteSize>().unwrap_err())
        }
        other => panic!("{other:?}"),
    }
    let mut row = raw();
    row.date = None;
    assert!(matches!(
        reason(parse_list_row("b", &row, 2023)),
        IndexerErrorReason::EntryDateNotFound
    ));
    let mut row = raw();
    row.date = Some("yesterday".into());
    assert!(matches!(
        reason(parse_list_row("b", &row, 2023)),
        IndexerErrorReason::EntryDateInvalid {
            cause: DateErrorKind::Invalid
        }
    ));
}

#[test]
fn the_first_field_of_a_row_decides() {
    let mut row = raw();
    row.seeders = Some("x".into());
    row.leechers = None;
    row.size = None;
    row.date = None;
    assert!(matches!(
        reason(parse_list_row("b", &row, 2023)),
        IndexerErrorReason::EntrySeedersInvalid { .. }
    ));
    row.link = None;
    assert!(matches!(
        reason(parse_list_row("b", &row, 2023)),
        IndexerErrorReason::EntryLinkNotFound
    ));
}

#[test]
fn one_broken_row_among_twenty() {
    let mut rows: Vec<String> = (0..20).map(|i| row_html(i, Some("26"))).collect();
    rows.insert(7, row_html(99, None));
    let batch = parse("https://1337x.to", &page(&rows));
    assert_eq!(batch.entries.len(), 20);
    assert_eq!(batch.errors.len(), 1);
    assert!(matches!(
        batch.errors[0].reason,
        IndexerErrorReason::EntrySeedersNotFound
    ));
    assert_eq!(batch.errors[0].origin, "1337x");
    for (i, entry) in batch.entries.iter().enumerate() {
        assert_eq!(entry.name, name_of(i));
        assert_eq!(entry.url, format!("https://1337x.to/torrent/{i}/name-{i}/"));
        assert_eq!(entry.magnet, format!("/torrent/{i}/name-{i}/"));
        assert_eq!(entry.seeders, 26);
        assert_eq!(entry.leechers, 9);
        assert_eq!(entry.size, 4_099_999_999);
        assert_eq!(entry.date.unix(), 1595062800);
    }
}

#[test]
fn rows_are_read_in_order_and_alone() {
    let mut broken = raw();
    broken.size = Some("?".into());
    let mut other = raw();
    other.link.as_mut().unwrap().text = "second".into();
    let mut missing = raw();
    missing.date = None;
    let batch = parse_rows("b", &vec![raw(), broken, other, missing], 2023);
    assert_eq!(batch.entries.len(), 2);
    assert_eq!(batch.errors.len(), 2);
    assert_eq!(batch.entries[0].name, "How I Met Your Mother - Season 4");
    assert_eq!(batch.entries[1].name, "second");
    assert!(matches!(
        batch.errors[0].reason,
        IndexerErrorReason::EntrySizeInvalid { .. }
    ));
    assert!(matches!(
        batch.errors[1].reason,
        IndexerErrorReason::EntryDateNotFound
    ));
    let none = parse_rows("b", &Vec::new(), 2023);
    assert!(none.entries.is_empty() && none.errors.is_empty());
}

#[test]
fn a_page_without_rows() {
    let batch = parse("b", "<html><body><p>nothing</p></body></html>");
    assert!(batch.entries.is_empty() && batch.errors.is_empty());
    let batch = parse("b", "");
    assert!(batch.entries.is_empty() && batch.errors.is_empty());
}

#[test]
fn the_first_magnet_link() {
    let html = detail(&["/login", "magnet:?xt=urn:btih:ONE", "magnet:?xt=urn:btih:TWO"]);
    assert_eq!(parse_magnet(&html).unwrap(), "magnet:?xt=urn:btih:ONE");
    let error = parse_magnet(&detail(&["/login", "magnet:x", "magnet"])).unwrap_err();
    assert_eq!(error.origin, "1337x");
    assert!(matches!(
        error.reason,
        IndexerErrorReason::EntryMagnetNotFound
    ));
    assert!(parse_magnet("<a href=\"magnet:?xt=1\">elsewhere</a>").is_err());
    assert!(parse_magnet("").is_err());
}

#[test]
fn magnet_among_links() {
    let hrefs = vec![
        None,
        Some("http://x".to_string()),
        Some("magnet:?a".to_string()),
        Some("magnet:?b".to_string()),
    ];
    assert_eq!(magnet_among(&hrefs).unwrap(), "magnet:?a");
    assert!(magnet_among(&vec![None, Some("Magnet:?a".to_string())]).is_err());
    assert!(magnet_among(&Vec::new()).is_err());
    assert_eq!(
        magnet_among(&vec![Some("magnet:?".to_string())]).unwrap(),
        "magnet:?"
    );
}

#[test]
fn paths_and_addresses_of_1337x() {
    assert_eq!(
        Indexer1337x::search_path("how i met your mother"),
        "/search/how%20i%20met%20your%20mother/1/"
    );
    assert_eq!(
        Indexer1337x::search_path("a-b_c.d~e/é?&+"),
        "/search/a-b_c.d~e%2F%C3%A9%3F%26%2B/1/"
    );
    assert_eq!(Indexer1337x::search_path(""), "/search//1/");
    assert_eq!(Indexer1337x::feed_path(Category::Audio), "/cat/Music/1/");
    assert_eq!(Indexer1337x::feed_path(Category::Music), "/cat/Music/1/");
    assert_eq!(Indexer1337x::feed_path(Category::Movie), "/cat/Movies/1/");
    assert_eq!(Indexer1337x::feed_path(Category::Tv), "/cat/TV/1/");
    assert_eq!(Indexer1337x::feed_path(Category::Book), "/cat/Other/1/");
    let indexer = Indexer1337x::new("http://localhost:1234");
    assert_eq!(
        indexer.page_url("/cat/TV/1/"),
        "http://localhost:1234/cat/TV/1/"
    );
    assert_eq!(
        Indexer1337x::default().page_url("/x"),
        "https://1337x.to/x"
    );
    assert_eq!(Indexer1337xConfig::default_base_url(), "https://1337x.to");
    let built = Indexer1337xConfig {
        base_url: "http://b".into(),
    }
    .build("mine".into());
    assert_eq!(built.page_url("/p"), "http://b/p");
}

fn unable(url: &str) -> IndexerError {
    IndexerError::new(
        NAME,
        IndexerErrorReason::UnableToQuery {
            url: url.into(),
            cause: "refused".into(),
        },
    )
}

#[test]
fn lib_basic_search() {
    let indexer = Indexer1337x::new("http://site");
    let rows: Vec<String> = (0..20).map(|i| row_html(i, Some("26"))).collect();
    let listing = indexer.listing(Ok(page(&rows)));
    assert_eq!(listing.entries.len(), 20);
    assert_eq!(listing.errors.len(), 0);
    let IndexerResult { entries, errors } = listing;
    let resolved: Vec<_> = entries
        .into_iter()
        .map(|entry| {
            assert_eq!(indexer.page_url(&entry.magnet), entry.url);
            Indexer1337x::resolve_magnet(entry, Ok(detail(&["magnet:?xt=urn:btih:M"])))
        })
        .collect();
    let results = Indexer1337x::finish(errors, resolved);
    assert_eq!(results.entries.len(), 20);
    assert_eq!(results.errors.len(), 0);
    assert_eq!(results.entries[0].name, "How I Met Your Mother - Season 4");
    assert_eq!(results.entries[0].seeders, 26);
    assert_eq!(results.entries[0].leechers, 9);
    assert_eq!(
        bytesize::ByteSize::b(results.entries[0].size).to_string(),
        "4.1 GB"
    );
    assert_eq!(
        results.entries[1].name,
        "How I Met Your Mother S01-S09 COMPLETE DVDrip mixed"
    );
    assert_eq!(
        results.entries[2].name,
        "How I Met Your Mother Season 7 Complete HDTV Bzingaz"
    );
    assert_eq!(
        results.entries[3].name,
        "How I Met Your Mother [KiSS] - Season 1 Complete E-Subs WEB-Dl"
    );
    for entry in &results.entries {
        assert_eq!(entry.magnet, "magnet:?xt=urn:btih:M");
    }
}

#[test]
fn a_listing_that_could_not_be_had() {
    let indexer = Indexer1337x::new("http://site");
    let batch = indexer.listing(Err(unable("http://site/search/x/1/")));
    assert!(batch.entries.is_empty());
    assert_eq!(batch.errors.len(), 1);
    match &batch.errors[0].reason {
        IndexerErrorReason::UnableToQuery { url, cause } => {
            assert_eq!(url, "http://site/search/x/1/");
            assert_eq!(cause, "refused");
        }
        other => panic!("{other:?}"),
    }
}

#[test]
fn a_failed_detail_page_costs_one_entry() {
    let indexer = Indexer1337x::new("http://site");
    let mut rows: Vec<String> = (0..4).map(|i| row_html(i, Some("1"))).collect();
    rows.push(row_html(4, Some("many")));
    let IndexerResult { entries, errors } = indexer.listing(Ok(page(&rows)));
    assert_eq!((entries.len(), errors.len()), (4, 1));
    let resolved: Vec<_> = entries
        .into_iter()
        .enumerate()
        .map(|(i, entry)| match i {
            1 => Indexer1337x::resolve_magnet(entry, Err(unable("http://site/torrent/1/"))),
            2 => Indexer1337x::resolve_magnet(entry, Ok(detail(&["/login"]))),
            _ => Indexer1337x::resolve_magnet(entry, Ok(detail(&["magnet:?x"]))),
        })
        .collect();
    let batch = Indexer1337x::finish(errors, resolved);
    assert_eq!(batch.entries.len(), 2);
    assert_eq!(batch.entries[0].name, name_of(0));
    assert_eq!(batch.entries[1].name, name_of(3));
    assert_eq!(batch.entries[0].magnet, "magnet:?x");
    assert_eq!(batch.errors.len(), 3);
    assert!(matches!(
        batch.errors[0].reason,
        IndexerErrorReason::EntrySeedersInvalid { .. }
    ));
    assert!(matches!(
        batch.errors[1].reason,
        IndexerErrorReason::UnableToQuery { .. }
    ));
    assert!(matches!(
        batch.errors[2].reason,
        IndexerErrorReason::EntryMagnetNotFound
    ));
}

#[test]
fn the_magnet_replaces_the_path() {
    let entry = parse_list_row("b", &raw(), 2023).unwrap();
    let done = Indexer1337x::with_magnet(entry, Ok("magnet:?z".into())).unwrap();
    assert_eq!(done.magnet, "magnet:?z");
    assert_eq!(done.url, "b/torrent/1/x/");
    assert_eq!(done.name, "How I Met Your Mother - Season 4");
    let entry = parse_list_row("b", &raw(), 2023).unwrap();
    assert!(Indexer1337x::with_magnet(entry, Err(unable("u"))).is_err());
}
