use racoon_typper::adaptive::FrequencyAdaptiveGenerator;

#[test]
fn generate_from_weak_chars() {
    let gen = FrequencyAdaptiveGenerator::new(vec![
        "cat".to_string(),
        "bat".to_string(),
        "rat".to_string(),
        "hello".to_string(),
    ]);
    let text = gen.generate(&['a'], 3);
    let words: Vec<&str> = text.split(' ').collect();
    assert_eq!(words.len(), 3);
    for w in &words {
        assert!(w.contains('a'), "Word '{}' should contain 'a'", w);
    }
}

#[test]
fn generate_empty_weak_falls_back() {
    let gen = FrequencyAdaptiveGenerator::new(vec!["hello".to_string(), "world".to_string()]);
    let text = gen.generate(&[], 2);
    let words: Vec<&str> = text.split(' ').collect();
    assert_eq!(words.len(), 2);
}

#[test]
fn generate_no_matching_words_uses_fallback() {
    let gen = FrequencyAdaptiveGenerator::new(vec!["xyz".to_string(), "qwe".to_string()]);
    let text = gen.generate(&['a'], 2);
    let words: Vec<&str> = text.split(' ').collect();
    assert_eq!(words.len(), 2);
}

#[test]
fn generate_correct_word_count() {
    let gen = FrequencyAdaptiveGenerator::new(vec![
        "cat".to_string(),
        "bat".to_string(),
        "rat".to_string(),
    ]);
    let text = gen.generate(&['a'], 10);
    let words: Vec<&str> = text.split(' ').collect();
    assert_eq!(words.len(), 10);
}

#[test]
fn generate_empty_word_list_uses_chars() {
    let gen = FrequencyAdaptiveGenerator::new(vec![]);
    let text = gen.generate(&['a', 'e'], 5);
    assert!(!text.is_empty());
    assert_eq!(text, "a e");
}

#[test]
fn generate_alternates_the_two_best_scored_words() {
    let gen = FrequencyAdaptiveGenerator::new(vec![
        "bat".to_string(),
        "banana".to_string(),
        "cat".to_string(),
        "aha".to_string(),
    ]);
    assert_eq!(gen.generate(&['a'], 4), "banana aha banana aha");
    let single = FrequencyAdaptiveGenerator::new(vec!["sun".to_string()]);
    assert_eq!(single.generate(&['u'], 3), "sun sun sun");
    assert_eq!(gen.generate(&[], 10), "bat banana cat aha");
}

#[test]
fn filter_keeps_words_with_weak_chars_in_order() {
    let gen = FrequencyAdaptiveGenerator::new(vec![
        "one".to_string(),
        "two".to_string(),
        "six".to_string(),
    ]);
    assert_eq!(gen.filter_words_by_chars(&['o']), vec!["one".to_string(), "two".to_string()]);
    assert!(gen.filter_words_by_chars(&['z']).is_empty());
}

#[test]
fn from_word_list_en() {
    let gen = FrequencyAdaptiveGenerator::from_word_list(vec![
        "the".to_string(),
        "be".to_string(),
        "to".to_string(),
    ]);
    assert!(!gen.word_list.is_empty());
}

#[test]
fn from_word_list_ru() {
    let gen = FrequencyAdaptiveGenerator::from_word_list(vec![
        "и".to_string(),
        "в".to_string(),
        "не".to_string(),
    ]);
    assert!(!gen.word_list.is_empty());
}

#[test]
fn from_word_list_empty() {
    let gen = FrequencyAdaptiveGenerator::from_word_list(vec![]);
    assert!(gen.word_list.is_empty());
}
