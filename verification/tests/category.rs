use manteau::prelude::Category;

#[test]
fn codes_of_the_categories() {
    assert_eq!(Category::Movie.kind(), 2000);
    assert_eq!(Category::Audio.kind(), 3000);
    assert_eq!(Category::Music.kind(), 3000);
    assert_eq!(Category::Tv.kind(), 5000);
    assert_eq!(Category::Book.kind(), 7000);
}

#[test]
fn codes_in_decimal() {
    for category in [
        Category::Audio,
        Category::Book,
        Category::Movie,
        Category::Music,
        Category::Tv,
    ] {
        assert_eq!(category.kind_str(), category.kind().to_string());
    }
}

#[test]
fn code_round_trip() {
    for code in [2000u32, 3000, 5000, 7000] {
        assert_eq!(Category::try_from(code).unwrap().kind(), code);
    }
    assert_eq!(Category::try_from(2000).unwrap(), Category::Movie);
    assert_eq!(Category::try_from(3000).unwrap(), Category::Audio);
    assert_eq!(Category::try_from(5000).unwrap(), Category::Tv);
    assert_eq!(Category::try_from(7000).unwrap(), Category::Book);
}

#[test]
fn other_codes_are_rejected() {
    for code in [0u32, 1, 1999, 2001, 4000, 6000, 7001, 8000, u32::MAX] {
        assert_eq!(
            Category::try_from(code).unwrap_err(),
            format!("invalid category {code}")
        );
    }
}

#[test]
fn codes_as_text() {
    assert_eq!(Category::from_str("2000").unwrap(), Category::Movie);
    assert_eq!(Category::from_str("3000").unwrap(), Category::Audio);
    assert_eq!(Category::from_str("5000").unwrap(), Category::Tv);
    assert_eq!(Category::from_str("7000").unwrap(), Category::Book);
    for text in ["", "2", "02000", "2000 ", "+2000", "4000", "20000", "movie", "2\"0"] {
        assert_eq!(
            Category::from_str(text).unwrap_err(),
            format!("invalid category {text:?}")
        );
    }
}
