use manteau::bitsearch::search::{parse, parse_row_result, parse_rows, sanitize_name};
use manteau::bitsearch::{IndexerBitsearch, IndexerBitsearchConfig, NAME};
use manteau::numeric::ParseNumberError;
use manteau::page::{RawLink, RawRow};
use manteau::prelude::{Category, IndexerEntry, IndexerError, IndexerErrorReason};
use manteau::time::DateErrorKind;

fn name_of(index: usize) -> String {
    match index {
        0 => "How I Met Your Mother (2005) Season 1-9 S01-S09 (1080p MIXED x265 HEVC 10bit AAC 5.1 Silence)".to_string(),
        1 => "How I Met Your Mother Season 1".to_string(),
        _ => format!("How I Met Your Mother {index}"),
    }
}

fn card(index: usize, seeders: Option<&str>) -> String {
    let seeders = match seeders {
        Some(count) => format!("<img alt=\"Seeder\"><font>{count}</font>"),
        None => String::new(),
    };
    let name = name_of(index).replace("Your Mother", "Your\tMother");
    format!(
        "<li class=\"card search-result my-2\"><div class=\"info\">\
<h5 class=\"title w-100 truncate\"><a href=\"/torrents/{index}\">\n   {name}\n</a></h5>\
<div class=\"stats\"><div><img alt=\"Download\">12</div>\
<div><img alt=\"Size\"> 104.0 GB </div>\
<div>{seeders}</div>\
<div><img alt=\"Leecher\"><font> 608 </font></div>\
<div><img alt=\"Date\">Mar 21, 2023</div></div></div>\
<div class=\"links\"><a class=\"dl-torrent\" href=\"/t\">t</a>\
<a class=\"dl-magnet\" href=\"magnet:?xt=urn:btih:{index}\">m</a></div></li>"
    )
}

fn page(cards: &[String]) -> String {
    format!("<html><body><ul>{}</ul></body></html>", cards.join(""))
}

fn raw() -> RawRow {
    RawRow {
        link: Some(RawLink {
            text: "How I Met\n  Your Mother ".into(),
            href: Some("/torrents/a".into()),
        }),
        size: Some("\n 104.0 GB ".into()),
        seeders: Some(" 111 ".into()),
        leechers: Some("608".into()),
        date: Some("Mar 21, 2023".into()),
        magnet: Some("magnet:?xt=urn:btih:A".into()),
    }
}

fn reason(outcome: Result<IndexerEntry, IndexerError>) -> IndexerErrorReason {
    let error = outcome.unwrap_err();
    assert_eq!(error.origin, "bitsearch");
    error.reason
}

#[test]
fn names_without_the_blanks_of_the_page() {
    assert_eq!(sanitize_name("How I Met\n  Your\tMother "), "How I Met Your Mother");
    assert_eq!(sanitize_name("  a  "), "a");
    assert_eq!(sanitize_name("a"), "a");
    assert_eq!(sanitize_name(""), "");
    assert_eq!(sanitize_name(" \n\t "), "");
    assert_eq!(sanitize_name("a\u{a0}b  c"), "a\u{a0}b c");
    assert_eq!(sanitize_name("a\rb"), "a\rb");
    for text in ["x  y", "\n\nx\ty z\n", "x", " x", "x ", "é  ✓"] {
        let expected = text
            .split(&['\n', ' ', '\t'])
            .filter(|part| !part.is_empty())
            .collect::<Vec<_>>()
            .join(" ");
        assert_eq!(sanitize_name(text), expected);
    }
}

#[test]
fn a_card_that_is_whole() {
    let entry = parse_row_result("https://bitsearch.to", &raw()).unwrap();
    assert_eq!(entry.name, "How I Met Your Mother");
    assert_eq!(entry.url, "https://bitsearch.to/torrents/a");
    assert_eq!(entry.size, 104_000_000_000);
    assert_eq!(entry.seeders, 111);
    assert_eq!(entry.leechers, 608);
    assert_eq!(entry.date.unix(), 1679389200);
    assert_eq!(entry.magnet, "magnet:?xt=urn:btih:A");
    assert_eq!(entry.origin, NAME);
}

#[test]
fn counts_may_be_abbreviated() {
    let mut row = raw();
    row.seeders = Some(" 4.2K\n".into());
    row.leechers = Some("2g".into());
    let entry = parse_row_result("b", &row).unwrap();
    assert_eq!(entry.seeders, 4200);
    assert_eq!(entry.leechers, 2_000_000_000);
}

#[test]
fn each_field_of_a_card_has_its_error() {
    let mut row = raw();
    row.link = None;
    assert!(matches!(
        reason(parse_row_result("b", &row)),
        IndexerErrorReason::EntryNameNotFound
    ));
    let mut row = raw();
    row.link.as_mut().unwrap().href = None;
    assert!(matches!(
        reason(parse_row_result("b", &row)),
        IndexerErrorReason::EntryLinkNotFound
    ));
    let mut row = raw();
    row.size = None;
    assert!(matches!(
        reason(parse_row_result("b", &row)),
        IndexerErrorReason::EntrySizeNotFound
    ));
    let mut row = raw();
    row.size = Some(" lots ".into());
    match reason(parse_row_result("b", &row)) {
        IndexerErrorReason::EntrySizeInvalid { cause } => {
            assert_eq!(cause, "lots".parse::<bytesize::ByteSize>().unwrap_err())
        }
        other => panic!("{other:?}"),
    }
    let mut row = raw();
    row.seeders = None;
    assert!(matches!(
        reason(parse_row_result("b", &row)),
        IndexerErrorReason::EntrySeedersNotFound
    ));
    let mut row = raw();
    row.seeders = Some("many".into());
    assert!(matches!(
        reason(parse_row_result("b", &row)),
        IndexerErrorReason::EntrySeedersInvalid {
            cause: ParseNumberError::InvalidFormat
        }
    ));
    let mut row = raw();
    row.leechers = None;
    assert!(matches!(
        reason(parse_row_result("b", &row)),
        IndexerErrorReason::EntryLeechersNotFound
    ));
    let mut row = raw();
    row.leechers = Some("0.5".into());
    assert!(matches!(
        reason(parse_row_result("b", &row)),
        IndexerErrorReason::EntryLeechersInvalid {
            cause: ParseNumberError::InvalidBaseNumber(_)
        }
    ));
    let mut row = raw();
    row.date = None;
    assert!(matches!(
        reason(parse_row_result("b", &row)),
        IndexerErrorReason::EntryDateNotFound
    ));
    let mut row = raw();
    row.date = Some(" Mar 21, 2023".into());
    assert!(matches!(
        reason(parse_row_result("b", &row)),
        IndexerErrorReason::EntryDateInvalid {
            cause: DateErrorKind::Invalid
        }
    ));
    let mut row = raw();
    row.magnet = None;
    assert!(matches!(
        reason(parse_row_result("b", &row)),
        IndexerErrorReason::EntryMagnetNotFound
    ));
}

#[test]
fn the_first_field_of_a_card_decides() {
    let mut row = raw();
    row.size = Some("?".into());
    row.seeders = None;
    row.magnet = None;
    assert!(matches!(
        reason(parse_row_result("b", &row)),
        IndexerErrorReason::EntrySizeInvalid { .. }
    ));
}

#[test]
fn mod_basic_search() {
    let cards: Vec<String> = (0..20).map(|i| card(i, Some("111"))).collect();
    let indexer = IndexerBitsearch::new("http://site");
    let results = indexer.listing(Ok(page(&cards)));
    assert_eq!(results.entries.len(), 20);
    assert_eq!(results.errors.len(), 0);
    assert_eq!(results.entries[0].name, "How I Met Your Mother (2005) Season 1-9 S01-S09 (1080p MIXED x265 HEVC 10bit AAC 5.1 Silence)");
    assert_eq!(results.entries[0].seeders, 111);
    assert_eq!(results.entries[0].leechers, 608);
    assert_eq!(
        bytesize::ByteSize::b(results.entries[0].size).to_string(),
        "104.0 GB"
    );
    assert_eq!(results.entries[0].size, 104_000_000_000);
    assert_eq!(results.entries[0].url, "http://site/torrents/0");
    assert_eq!(results.entries[0].magnet, "magnet:?xt=urn:btih:0");
    assert_eq!(results.entries[0].date.unix(), 1679389200);
    assert_eq!(results.entries[1].name, "How I Met Your Mother Season 1");
}

#[test]
fn one_broken_card_among_twenty() {
    let mut cards: Vec<String> = (0..20).map(|i| card(i, Some("5"))).collect();
    cards.insert(0, card(77, None));
    let batch = parse("http://site", &page(&cards));
    assert_eq!(batch.entries.len(), 20);
    assert_eq!(batch.errors.len(), 1);
    assert_eq!(batch.errors[0].origin, "bitsearch");
    assert!(matches!(
        batch.errors[0].reason,
        IndexerErrorReason::EntrySeedersInvalid {
            cause: ParseNumberError::InvalidFormat
        }
    ));
    for (i, entry) in batch.entries.iter().enumerate() {
        assert_eq!(entry.name, name_of(i));
    }
}

#[test]
fn cards_are_read_in_order_and_alone() {
    let mut broken = raw();
    broken.date = Some("never".into());
    let batch = parse_rows("b", &vec![broken, raw(), raw()]);
    assert_eq!((batch.entries.len(), batch.errors.len()), (2, 1));
    let none = parse("b", "<html></html>");
    assert!(none.entries.is_empty() && none.errors.is_empty());
}

#[test]
fn addresses_of_bitsearch() {
    let indexer = IndexerBitsearch::new("http://localhost:8080");
    assert_eq!(
        indexer.search_url("how i met your mother").unwrap(),
        "http://localhost:8080/search?q=how+i+met+your+mother"
    );
    assert_eq!(
        indexer.search_url("a&b=c é").unwrap(),
        "http://localhost:8080/search?q=a%26b%3Dc+%C3%A9"
    );
    assert_eq!(
        indexer.feed_url(Category::Audio).unwrap(),
        "http://localhost:8080/music"
    );
    assert_eq!(
        indexer.feed_url(Category::Music).unwrap(),
        "http://localhost:8080/music"
    );
    assert_eq!(
        indexer.feed_url(Category::Movie).unwrap(),
        "http://localhost:8080/libraries"
    );
    assert_eq!(
        indexer.feed_url(Category::Tv).unwrap(),
        "http://localhost:8080/libraries?type=tvSeries"
    );
    assert!(indexer.feed_url(Category::Book).is_none());
    assert_eq!(
        IndexerBitsearch::default().feed_url(Category::Music).unwrap(),
        "https://bitsearch.to/music"
    );
    assert_eq!(
        IndexerBitsearchConfig::default_base_url(),
        "https://bitsearch.to"
    );
    let built = IndexerBitsearchConfig {
        base_url: "http://b".into(),
    }
    .build("mine".into());
    assert_eq!(built.feed_url(Category::Movie).unwrap(), "http://b/libraries");
}

#[test]
fn an_address_that_cannot_be_built() {
    let error = IndexerBitsearch::new("not an address")
        .search_url("x")
        .unwrap_err();
    assert_eq!(error.origin, "bitsearch");
    match error.reason {
        IndexerErrorReason::UnableToBuildUrl { cause } => {
            assert_eq!(cause, "relative URL without a base")
        }
        other => panic!("{other:?}"),
    }
}

#[test]
fn a_page_that_could_not_be_had() {
    let error = IndexerError::new(
        NAME,
        IndexerErrorReason::UnableToRead {
            url: "http://site/music".into(),
            cause: "cut".into(),
        },
    );
    let batch = IndexerBitsearch::new("http://site").listing(Err(error));
    assert!(batch.entries.is_empty());
    assert_eq!(batch.errors.len(), 1);
    assert!(matches!(
        &batch.errors[0].reason,
        IndexerErrorReason::UnableToRead { url, cause } if url == "http://site/music" && cause == "cut"
    ));
}
