use manteau::prelude::{Category, IndexerError, IndexerErrorReason};
use manteau::thepiratebay::common::create_magnet;
use manteau::thepiratebay::{feed, search};
use manteau::thepiratebay::{IndexerThePirateBay, IndexerThePirateBayConfig, NAME};
use manteau::time::DateErrorKind;

const MAGNET: &str = "magnet:?xt=urn%3Abith%3A19370E3FD96FB1ADA86ED5892BE5B791A2A32254&dn=John.Wick.Chapter.4.2023.HDCAM.c1nem4.x264-SUNSCREEN%5BTGx%5D&tr=udp%3A%2F%2Ftracker.coppersurfer.tk%3A6969%2Fannounce&tr=udp%3A%2F%2Ftracker.openbittorrent.com%3A6969%2Fannounce&tr=udp%3A%2F%2F9.rarbg.to%3A2710%2Fannounce&tr=udp%3A%2F%2F9.rarbg.to%3A2780%2Fannounce&tr=udp%3A%2F%2F9.rarbg.to%3A2730%2Fannounce&tr=udp%3A%2F%2Ftracker.opentrackr.org%3A1337&tr=http%3A%2F%2Fp4p.arenabg.com%3A1337%2Fannounce&tr=udp%3A%2F%2Ftracker.torrent.eu.org%3A451%2Fannounce&tr=udp%3A%2F%2Ftracker.tiny-vps.com%3A6969%2Fannounce&tr=udp%3A%2F%2Fopen.stealth.si%3A80%2Fannounce";

const HASH: &str = "19370E3FD96FB1ADA86ED5892BE5B791A2A32254";

const JOHN: &str = "John.Wick.Chapter.4.2023.HDCAM.c1nem4.x264-SUNSCREEN[TGx]";

fn top(id: u64, name: &str) -> feed::Entry {
    feed::Entry {
        id,
        info_hash: HASH.into(),
        name: name.into(),
        leechers: 1074,
        seeders: 1068,
        added: 1679432400,
        size: 1_044_300_000,
    }
}

fn found(id: &str, name: &str) -> search::Entry {
    search::Entry {
        id: id.into(),
        name: name.into(),
        info_hash: HASH.into(),
        leechers: "89".into(),
        seeders: "97".into(),
        added: "1679432400".into(),
        size: "3700000000".into(),
    }
}

fn unable(url: &str) -> IndexerError {
    IndexerError::new(
        NAME,
        IndexerErrorReason::UnableToQuery {
            url: url.into(),
            cause: "refused".into(),
        },
    )
}

#[test]
fn the_magnet_link() {
    assert_eq!(create_magnet(JOHN, HASH).unwrap(), MAGNET);
    assert_eq!(create_magnet(&format!("  {JOHN}\n"), HASH).unwrap(), MAGNET);
    assert_eq!(
        create_magnet("a b&c", "H").unwrap(),
        MAGNET
            .replace(HASH, "H")
            .replace("John.Wick.Chapter.4.2023.HDCAM.c1nem4.x264-SUNSCREEN%5BTGx%5D", "a+b%26c")
    );
}

#[test]
fn feed_should_parse_result() {
    let first: Vec<feed::Entry> = (0..100)
        .map(|i| match i {
            0 => top(67117416, JOHN),
            1 => top(2, "John Wick Chapter 4 2023.720p.x264.CAMRip.English"),
            _ => top(i, "other"),
        })
        .collect();
    let second: Vec<feed::Entry> = (0..100).map(|i| top(1000 + i, "more")).collect();
    let results = feed::execute("http://tpb.org", vec![Ok(first), Ok(second)]);
    assert_eq!(results.entries.len(), 200);
    assert_eq!(results.errors.len(), 0);
    assert_eq!(results.entries[0].name, JOHN);
    assert_eq!(
        results.entries[0].url,
        "http://tpb.org/description.php?id=67117416"
    );
    assert_eq!(results.entries[0].magnet, MAGNET);
    assert_eq!(results.entries[0].seeders, 1068);
    assert_eq!(results.entries[0].leechers, 1074);
    assert_eq!(
        bytesize::ByteSize::b(results.entries[0].size).to_string(),
        "1044.3 MB"
    );
    assert_eq!(results.entries[0].size, 1_044_300_000);
    assert_eq!(results.entries[0].date.unix(), 1679432400);
    assert_eq!(results.entries[0].origin, "thepiratebay");
    assert_eq!(
        results.entries[1].name,
        "John Wick Chapter 4 2023.720p.x264.CAMRip.English"
    );
    assert_eq!(results.entries[100].name, "more");
    assert_eq!(
        results.entries[100].url,
        "http://tpb.org/description.php?id=1000"
    );
}

#[test]
fn search_should_parse_result() {
    let records: Vec<search::Entry> = (0..100)
        .map(|i| match i {
            0 => found(
                "1",
                "How I Met Your Mother Season 1 S01 (1080p Web x265 HEVC AAC 5.1",
            ),
            1 => found(
                "2",
                "How I Met Your Mother Season 2 S02 (1080p Web x265 HEVC AAC 5.1",
            ),
            _ => found(&i.to_string(), " other "),
        })
        .collect();
    let results = search::execute("http://tpb.org", Ok(records));
    assert_eq!(results.entries.len(), 100);
    assert_eq!(results.errors.len(), 0);
    assert_eq!(
        results.entries[0].name,
        "How I Met Your Mother Season 1 S01 (1080p Web x265 HEVC AAC 5.1"
    );
    assert_eq!(results.entries[0].seeders, 97);
    assert_eq!(results.entries[0].leechers, 89);
    assert_eq!(
        bytesize::ByteSize::b(results.entries[0].size).to_string(),
        "3.7 GB"
    );
    assert_eq!(results.entries[0].size, 3_700_000_000);
    assert_eq!(results.entries[0].url, "http://tpb.org/description.php?id=1");
    assert_eq!(results.entries[0].date.unix(), 1679432400);
    assert_eq!(
        results.entries[1].name,
        "How I Met Your Mother Season 2 S02 (1080p Web x265 HEVC AAC 5.1"
    );
    assert_eq!(results.entries[2].name, "other");
}

#[test]
fn numbers_that_arrive_as_text() {
    let reason = |record: search::Entry| {
        let error = record.try_into("b").unwrap_err();
        assert_eq!(error.origin, "thepiratebay");
        error.reason
    };
    let mut record = found("1", "n");
    record.added = "soon".into();
    assert!(matches!(
        reason(record),
        IndexerErrorReason::EntryDateInvalid {
            cause: DateErrorKind::BadFormat
        }
    ));
    let mut record = found("1", "n");
    record.added = "253402300800".into();
    assert!(matches!(
        reason(record),
        IndexerErrorReason::EntryDateInvalid {
            cause: DateErrorKind::Impossible
        }
    ));
    let mut record = found("1", "n");
    record.size = "3.7".into();
    match reason(record) {
        IndexerErrorReason::EntrySizeInvalid { cause } => {
            assert_eq!(cause, "3.7".parse::<u64>().unwrap_err().to_string())
        }
        other => panic!("{other:?}"),
    }
    let mut record = found("1", "n");
    record.size = "".into();
    match reason(record) {
        IndexerErrorReason::EntrySizeInvalid { cause } => {
            assert_eq!(cause, "".parse::<u64>().unwrap_err().to_string())
        }
        other => panic!("{other:?}"),
    }
    let mut record = found("1", "n");
    record.seeders = "-1".into();
    assert!(matches!(
        reason(record),
        IndexerErrorReason::EntrySeedersInvalid { .. }
    ));
    let mut record = found("1", "n");
    record.leechers = "4294967296".into();
    assert!(matches!(
        reason(record),
        IndexerErrorReason::EntryLeechersInvalid { .. }
    ));
    let mut record = found("1", "n");
    record.added = "x".into();
    record.size = "x".into();
    record.seeders = "x".into();
    assert!(matches!(
        reason(record),
        IndexerErrorReason::EntryDateInvalid { .. }
    ));
    let mut record = found("1", "n");
    record.added = "-62167219200".into();
    assert_eq!(record.try_into("b").unwrap().date.unix(), -62167219200);
}

#[test]
fn one_broken_record_among_many() {
    let mut records: Vec<search::Entry> = (0..20).map(|i| found(&i.to_string(), "n")).collect();
    records[3].seeders = "none".into();
    let batch = search::execute("b", Ok(records));
    assert_eq!((batch.entries.len(), batch.errors.len()), (19, 1));
    assert_eq!(batch.entries[3].url, "b/description.php?id=4");
    let mut records: Vec<feed::Entry> = (0..20).map(|i| top(i, "n")).collect();
    records[0].added = i64::MAX;
    let batch = feed::execute("b", vec![Ok(records)]);
    assert_eq!((batch.entries.len(), batch.errors.len()), (19, 1));
    assert!(matches!(
        batch.errors[0].reason,
        IndexerErrorReason::EntryDateInvalid {
            cause: DateErrorKind::Impossible
        }
    ));
}

#[test]
fn an_answer_that_could_not_be_had() {
    let batch = search::execute("b", Err(unable("u")));
    assert_eq!((batch.entries.len(), batch.errors.len()), (0, 1));
    let batch = feed::execute(
        "b",
        vec![
            Err(unable("first")),
            Ok(vec![top(1, "a"), top(2, "b")]),
            Err(unable("third")),
            Ok(Vec::new()),
        ],
    );
    assert_eq!((batch.entries.len(), batch.errors.len()), (2, 2));
    assert!(matches!(
        &batch.errors[0].reason,
        IndexerErrorReason::UnableToQuery { url, .. } if url == "first"
    ));
    assert!(matches!(
        &batch.errors[1].reason,
        IndexerErrorReason::UnableToQuery { url, .. } if url == "third"
    ));
    let none = feed::execute("b", Vec::new());
    assert_eq!((none.entries.len(), none.errors.len()), (0, 0));
}

#[test]
fn addresses_of_the_interface() {
    let indexer = IndexerThePirateBay::new("http://api", "http://site");
    assert_eq!(
        indexer.search_url("how i met your mother", 0).unwrap(),
        "http://api/q.php?q=how+i+met+your+mother&cat=0"
    );
    assert_eq!(
        indexer.search_url("x", 207).unwrap(),
        "http://api/q.php?q=x&cat=207"
    );
    assert_eq!(
        indexer.feed_url(101),
        "http://api/precompiled/data_top100_101.json"
    );
    assert_eq!(indexer.base_url(), "http://site");
    assert_eq!(
        IndexerThePirateBay::default().feed_url(0),
        "https://apibay.org/precompiled/data_top100_0.json"
    );
    assert_eq!(IndexerThePirateBay::default().base_url(), "https://thepiratebay.org");
    assert_eq!(IndexerThePirateBayConfig::default_api_url(), "https://apibay.org");
    assert_eq!(
        IndexerThePirateBayConfig::default_base_url(),
        "https://thepiratebay.org"
    );
    let built = IndexerThePirateBayConfig {
        api_url: "http://a".into(),
        base_url: "http://b".into(),
    }
    .build("mine".into());
    assert_eq!(built.base_url(), "http://b");
    assert_eq!(built.feed_url(601), "http://a/precompiled/data_top100_601.json");
    let error = IndexerThePirateBay::new("nowhere", "b")
        .search_url("x", 0)
        .unwrap_err();
    assert!(matches!(
        error.reason,
        IndexerErrorReason::UnableToBuildUrl { .. }
    ));
}

#[test]
fn categories_of_the_site() {
    assert_eq!(
        IndexerThePirateBay::feed_categories(Category::Audio),
        vec![101, 104]
    );
    assert_eq!(
        IndexerThePirateBay::feed_categories(Category::Music),
        vec![101, 104]
    );
    assert_eq!(
        IndexerThePirateBay::feed_categories(Category::Movie),
        vec![201, 202, 207]
    );
    assert_eq!(
        IndexerThePirateBay::feed_categories(Category::Tv),
        vec![205, 208]
    );
    assert_eq!(
        IndexerThePirateBay::feed_categories(Category::Book),
        vec![601]
    );
}
