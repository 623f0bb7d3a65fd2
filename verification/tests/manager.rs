use manteau::bitsearch::IndexerBitsearchConfig;
use manteau::i1337x::{Indexer1337x, Indexer1337xConfig};
use manteau::manager::{Indexer, IndexerConfig, IndexerManager, IndexerManagerConfig, Join};
use manteau::prelude::{Category, IndexerEntry, IndexerError, IndexerErrorReason, IndexerResult};
use manteau::torznab::TorznabConfig;
use manteau::thepiratebay::IndexerThePirateBayConfig;
use manteau::time::Timestamp;

fn entry(name: &str) -> IndexerEntry {
    IndexerEntry {
        name: name.into(),
        url: "u".into(),
        date: Timestamp::from_unix(0).unwrap(),
        size: 1,
        seeders: 2,
        leechers: 3,
        magnet: "m".into(),
        origin: "fake",
    }
}

fn error(origin: &'static str) -> IndexerError {
    IndexerError::new(origin, IndexerErrorReason::EntryMagnetNotFound)
}

fn twenty() -> IndexerResult {
    IndexerResult::from_entries((0..20).map(|i| entry(&format!("e{i}"))).collect())
}

fn names(batch: &IndexerResult) -> Vec<String> {
    batch.entries.iter().map(|e| e.name.clone()).collect()
}

fn origins(batch: &IndexerResult) -> Vec<&'static str> {
    batch.errors.iter().map(|e| e.origin).collect()
}

fn batch(entries: &[&str], errors: &[&'static str]) -> IndexerResult {
    IndexerResult {
        entries: entries.iter().map(|name| entry(name)).collect(),
        errors: errors.iter().map(|origin| error(origin)).collect(),
    }
}

#[test]
fn merge_keeps_everything_in_order() {
    let merged = batch(&["a", "b"], &["x"]).merge(batch(&["c"], &["y", "z"]));
    assert_eq!(names(&merged), ["a", "b", "c"]);
    assert_eq!(origins(&merged), ["x", "y", "z"]);
}

#[test]
fn merge_is_associative() {
    let (a, b, c) = (
        || batch(&["a1", "a2"], &["ea"]),
        || batch(&[], &["eb1", "eb2"]),
        || batch(&["c1"], &[]),
    );
    let left = a().merge(b()).merge(c());
    let right = a().merge(b().merge(c()));
    assert_eq!(names(&left), names(&right));
    assert_eq!(origins(&left), origins(&right));
    assert_eq!(names(&left), ["a1", "a2", "c1"]);
    assert_eq!(origins(&left), ["ea", "eb1", "eb2"]);
}

#[test]
fn the_empty_batch_changes_nothing() {
    let a = || batch(&["a1", "a2"], &["ea"]);
    let right = a().merge(IndexerResult::default());
    let left = IndexerResult::default().merge(a());
    assert_eq!(names(&right), names(&a()));
    assert_eq!(origins(&right), origins(&a()));
    assert_eq!(names(&left), names(&a()));
    assert_eq!(origins(&left), origins(&a()));
    let none = IndexerResult::default().merge(IndexerResult::default());
    assert!(none.entries.is_empty() && none.errors.is_empty());
}

#[test]
fn batches_of_one_kind() {
    let only = IndexerResult::from_error(error("x"));
    assert_eq!((only.entries.len(), only.errors.len()), (0, 1));
    let only = IndexerResult::from_entries(vec![entry("a")]);
    assert_eq!((only.entries.len(), only.errors.len()), (1, 0));
    let mut grown = IndexerResult::default();
    grown.push_entry(entry("a"));
    grown.push_error(error("x"));
    grown.push_outcome(Ok(entry("b")));
    grown.push_outcome(Err(error("y")));
    assert_eq!(names(&grown), ["a", "b"]);
    assert_eq!(origins(&grown), ["x", "y"]);
    let gathered = IndexerResult::from_outcomes(
        vec![error("first")],
        vec![Ok(entry("a")), Err(error("x")), Ok(entry("b")), Err(error("y"))],
    );
    assert_eq!(names(&gathered), ["a", "b"]);
    assert_eq!(origins(&gathered), ["first", "x", "y"]);
}

#[test]
fn two_adapters_one_of_which_fails() {
    let merged = IndexerManager::merge(vec![twenty(), IndexerResult::from_error(error("down"))]);
    assert_eq!(merged.entries.len(), 20);
    assert_eq!(merged.errors.len(), 1);
    let merged = IndexerManager::merge(vec![IndexerResult::from_error(error("down")), twenty()]);
    assert_eq!(merged.entries.len(), 20);
    assert_eq!(merged.errors.len(), 1);
    let none = IndexerManager::merge(Vec::new());
    assert!(none.entries.is_empty() && none.errors.is_empty());
}

#[test]
fn answers_in_either_order() {
    let mut first = Join::new(2);
    assert!(!first.is_complete());
    first.complete(0, twenty());
    assert!(!first.is_complete());
    first.complete(1, IndexerResult::from_error(error("down")));
    assert!(first.is_complete());
    let mut second = Join::new(2);
    second.complete(1, IndexerResult::from_error(error("down")));
    second.complete(0, twenty());
    assert!(second.is_complete());
    let (first, second) = (first.finish(), second.finish());
    assert_eq!(first.entries.len(), 20);
    assert_eq!(first.errors.len(), 1);
    assert_eq!(names(&first), names(&second));
    assert_eq!(origins(&first), origins(&second));
}

#[test]
fn answers_are_merged_by_place() {
    let mut join = Join::new(3);
    join.complete(2, batch(&["c"], &["ec"]));
    join.complete(0, batch(&["a"], &["ea"]));
    join.complete(1, batch(&["b"], &["eb"]));
    let all = join.finish();
    assert_eq!(names(&all), ["a", "b", "c"]);
    assert_eq!(origins(&all), ["ea", "eb", "ec"]);
}

#[test]
fn an_answer_counts_once() {
    let mut join = Join::new(2);
    join.complete(0, batch(&["a"], &[]));
    join.complete(0, batch(&["again"], &["late"]));
    join.complete(2, batch(&["nowhere"], &[]));
    assert!(!join.is_complete());
    let partial = join.finish();
    assert_eq!(names(&partial), ["a"]);
    assert!(partial.errors.is_empty());
    assert!(Join::new(0).is_complete());
    let none = Join::new(0).finish();
    assert!(none.entries.is_empty() && none.errors.is_empty());
}

#[test]
fn the_adapters_of_a_server() {
    let manager = IndexerManager::default();
    assert_eq!(manager.indexers().len(), 3);
    assert!(matches!(manager.indexers()[0], Indexer::I1337x(_)));
    assert!(matches!(manager.indexers()[1], Indexer::Bitsearch(_)));
    assert!(matches!(manager.indexers()[2], Indexer::ThePirateBay(_)));
    match &manager.indexers()[0] {
        Indexer::I1337x(inner) => {
            assert_eq!(inner.base_url(), "https://1337x.to");
            assert_eq!(inner.name(), "1337x");
        }
        other => panic!("{other:?}"),
    }
    match &manager.indexers()[1] {
        Indexer::Bitsearch(inner) => {
            assert_eq!(inner.base_url(), "https://bitsearch.to");
            assert_eq!(inner.name(), "bitsearch");
        }
        other => panic!("{other:?}"),
    }
    match &manager.indexers()[2] {
        Indexer::ThePirateBay(inner) => {
            assert_eq!(inner.api_url(), "https://apibay.org");
            assert_eq!(inner.base_url(), "https://thepiratebay.org");
            assert_eq!(inner.name(), "ThePirateBay");
        }
        other => panic!("{other:?}"),
    }
    let one = IndexerManager::with_indexer(Indexer::I1337x(Indexer1337x::new("http://x")));
    assert_eq!(one.indexers().len(), 1);
    match &one.indexers()[0] {
        Indexer::I1337x(inner) => assert_eq!(inner.page_url("/p"), "http://x/p"),
        other => panic!("{other:?}"),
    }
    let built = IndexerManagerConfig(vec![
        (
            "pirate".to_string(),
            IndexerConfig::ThePirateBay(IndexerThePirateBayConfig {
                api_url: "http://a".into(),
                base_url: "http://b".into(),
            }),
        ),
        (
            "bits".to_string(),
            IndexerConfig::Bitsearch(IndexerBitsearchConfig {
                base_url: "http://c".into(),
            }),
        ),
        (
            "leet".to_string(),
            IndexerConfig::I1337x(Indexer1337xConfig {
                base_url: "http://d".into(),
            }),
        ),
    ])
    .build();
    assert_eq!(built.indexers().len(), 3);
    assert!(matches!(built.indexers()[0], Indexer::ThePirateBay(_)));
    assert!(matches!(built.indexers()[1], Indexer::Bitsearch(_)));
    assert!(matches!(built.indexers()[2], Indexer::I1337x(_)));
    match &built.indexers()[0] {
        Indexer::ThePirateBay(inner) => {
            assert_eq!(inner.name(), "pirate");
            assert_eq!(inner.api_url(), "http://a");
            assert_eq!(inner.base_url(), "http://b");
        }
        other => panic!("{other:?}"),
    }
    match &built.indexers()[1] {
        Indexer::Bitsearch(inner) => {
            assert_eq!(inner.name(), "bits");
            assert_eq!(inner.base_url(), "http://c");
        }
        other => panic!("{other:?}"),
    }
    match &built.indexers()[2] {
        Indexer::I1337x(inner) => {
            assert_eq!(inner.name(), "leet");
            assert_eq!(inner.base_url(), "http://d");
        }
        other => panic!("{other:?}"),
    }
    assert!(IndexerManagerConfig(Vec::new()).build().indexers().is_empty());
}

#[test]
fn every_adapter_fails() {
    let mut join = Join::new(3);
    join.complete(1, IndexerResult::from_error(error("b")));
    join.complete(2, IndexerResult::from_error(error("c")));
    join.complete(0, IndexerResult::from_error(error("a")));
    let all = join.finish();
    assert!(all.entries.is_empty());
    assert_eq!(origins(&all), ["a", "b", "c"]);
    let builder = TorznabConfig {
        name: "n".into(),
        description: "d".into(),
        base_url: "u".into(),
    }
    .build();
    assert_eq!(
        builder.feed(Category::Tv, &all.entries),
        builder.feed(Category::Tv, &Vec::new())
    );
    assert!(builder
        .feed(Category::Tv, &all.entries)
        .ends_with("<category>search</category></channel></rss>"));
}

#[test]
fn batches_can_be_copied() {
    let one = batch(&["a"], &["x"]);
    let two = one.clone();
    assert_eq!(names(&one), names(&two));
    assert_eq!(origins(&one), origins(&two));
    assert_eq!(one.entries[0].date, two.entries[0].date);
}
