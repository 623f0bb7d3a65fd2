use manteau::cache::CacheConfig;
use manteau::handler::{
    format_number, handle_tv_search, Action, ApplicationRssXml, QueryParams,
};
use manteau::prelude::Category;

fn some(text: &str) -> Option<String> {
    Some(text.to_string())
}

#[test]
fn numbers_of_two_digits() {
    assert_eq!(format_number("1".into()), "01");
    assert_eq!(format_number("0".into()), "00");
    assert_eq!(format_number("12".into()), "12");
    assert_eq!(format_number("123".into()), "123");
    assert_eq!(format_number("".into()), "");
    assert_eq!(format_number("x".into()), "0x");
    assert_eq!(format_number("é".into()), "é");
}

#[test]
fn season_and_episode() {
    assert_eq!(
        handle_tv_search("show".into(), some("1"), some("2")),
        "show S01E02"
    );
    assert_eq!(
        handle_tv_search("show".into(), some("10"), some("2")),
        "show S10E02"
    );
    assert_eq!(handle_tv_search("show".into(), some("3"), None), "show S03");
    assert_eq!(handle_tv_search("show".into(), None, some("2")), "show");
    assert_eq!(handle_tv_search("show".into(), None, None), "show");
}

#[test]
fn what_a_request_asks_for() {
    assert!(matches!(QueryParams::Caps.handle(), Action::Capabilities));
    assert!(matches!(
        QueryParams::Music.handle(),
        Action::Feed(Category::Music)
    ));
    assert!(matches!(
        QueryParams::Search { cat: Category::Audio, q: "foo".into() }.handle(),
        Action::Search(Category::Audio, q) if q == "foo"
    ));
    assert!(matches!(
        QueryParams::Search { cat: Category::Audio, q: String::new() }.handle(),
        Action::Feed(Category::Audio)
    ));
    assert!(matches!(
        QueryParams::TvSearch { cat: Category::Tv, q: some("show"), season: some("1"), ep: some("2") }.handle(),
        Action::Search(Category::Tv, q) if q == "show S01E02"
    ));
    assert!(matches!(
        QueryParams::TvSearch { cat: Category::Tv, q: some(""), season: some("1"), ep: None }.handle(),
        Action::Search(Category::Tv, q) if q == " S01"
    ));
    assert!(matches!(
        QueryParams::TvSearch { cat: Category::Tv, q: None, season: some("1"), ep: some("2") }.handle(),
        Action::Feed(Category::Tv)
    ));
    assert!(matches!(
        QueryParams::Movie { cat: Category::Movie, q: some("film") }.handle(),
        Action::Search(Category::Movie, q) if q == "film"
    ));
    assert!(matches!(
        QueryParams::Movie { cat: Category::Movie, q: some("") }.handle(),
        Action::Search(Category::Movie, q) if q.is_empty()
    ));
    assert!(matches!(
        QueryParams::Movie { cat: Category::Book, q: None }.handle(),
        Action::Feed(Category::Book)
    ));
}

#[test]
fn the_answer_and_the_cache() {
    let answer = ApplicationRssXml("<rss/>".into());
    assert_eq!(answer.content_type(), "application/rss+xml; charset=utf-8");
    assert_eq!(answer.0, "<rss/>");
    assert_eq!(CacheConfig::default_capacity(), 100);
    assert_eq!(CacheConfig::default_ttl(), 60);
    assert_eq!(
        CacheConfig::default(),
        CacheConfig {
            capacity: 100,
            ttl: 60
        }
    );
}
