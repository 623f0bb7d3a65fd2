use manteau::page::first_of;

#[test]
fn the_first_text_of_a_list() {
    assert_eq!(first_of(Vec::new()), None);
    assert_eq!(first_of(vec![None, None]), None);
    assert_eq!(
        first_of(vec![None, Some("a".to_string()), Some("b".to_string())]),
        Some("a".to_string())
    );
    assert_eq!(
        first_of(vec![Some(String::new()), Some("b".to_string())]),
        Some(String::new())
    );
}
