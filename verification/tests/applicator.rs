use jp_deinflector::deinflect::{deinflect_one_iteration, DeinflectedWord, DeinflectionRule};
use jp_deinflector::grammar::{RuleType, RuleTypeSet};

fn typed_word(text: &str, types: &[RuleType]) -> DeinflectedWord {
    DeinflectedWord::new(text.to_string(), RuleTypeSet::from_slice(types))
}

fn plain_rule(kana_out: &'static str, rules_in: &[RuleType], rules_out: &[RuleType]) -> DeinflectionRule {
    DeinflectionRule {
        kana_out,
        rules_in: RuleTypeSet::from_slice(rules_in),
        rules_out: RuleTypeSet::from_slice(rules_out),
    }
}

fn listed_words(words: &[DeinflectedWord]) -> Vec<(&str, Vec<RuleType>)> {
    words.iter().map(|w| (w.get_word(), w.get_types().to_vec())).collect()
}

#[test]
fn word_accessors() {
    let w = typed_word("食べる", &[RuleType::V1]);
    assert_eq!(w.get_word(), "食べる");
    assert_eq!(w.word, "食べる");
    assert_eq!(w.get_types(), RuleTypeSet::from_slice(&[RuleType::V1]));
    assert_eq!(w.types, w.get_types());
}

#[test]
fn could_be_verb_and_adjective() {
    assert!(!typed_word("早い", &[]).could_be_verb());
    assert!(!typed_word("早い", &[]).could_be_adjective());
    assert!(typed_word("早い", &[RuleType::AdjI]).could_be_adjective());
    assert!(!typed_word("早い", &[RuleType::AdjI]).could_be_verb());
    assert!(typed_word("食べる", &[RuleType::V1]).could_be_verb());
    assert!(!typed_word("食べる", &[RuleType::V1]).could_be_adjective());
    assert!(typed_word("ない", &[RuleType::AdjI, RuleType::V5]).could_be_verb());
    assert!(typed_word("ない", &[RuleType::AdjI, RuleType::V5]).could_be_adjective());
    assert!(typed_word("いる", &[RuleType::Iru]).could_be_verb());
}

#[test]
fn any_rule_applies_to_a_word_without_classes() {
    let w = typed_word("食べた", &[]);
    assert!(plain_rule("る", &[], &[RuleType::V1]).can_apply_to(&w));
    assert!(plain_rule("る", &[RuleType::V5], &[RuleType::V1]).can_apply_to(&w));
    assert_eq!(plain_rule("る", &[RuleType::V5], &[RuleType::V1]).apply(&w, 1), Some("食べる".to_string()));
}

#[test]
fn a_rule_applies_to_a_word_with_one_of_its_classes() {
    let w = typed_word("食べて", &[RuleType::Iru, RuleType::V5]);
    let r = plain_rule("る", &[RuleType::Iru], &[RuleType::V1]);
    assert!(r.can_apply_to(&w));
    assert_eq!(r.apply(&w, 1), Some("食べる".to_string()));
}

#[test]
fn a_rule_does_not_apply_to_a_word_of_other_classes() {
    let w = typed_word("食べて", &[RuleType::V5]);
    let r = plain_rule("る", &[RuleType::Iru], &[RuleType::V1]);
    assert!(!r.can_apply_to(&w));
    assert_eq!(r.apply(&w, 1), None);
}

#[test]
fn a_rule_that_asks_for_no_class_applies_to_the_surface_form_only() {
    let r = plain_rule("い", &[], &[RuleType::AdjI]);
    assert!(r.can_apply_to(&typed_word("白く", &[])));
    assert!(!r.can_apply_to(&typed_word("白く", &[RuleType::V5])));
    assert_eq!(r.apply(&typed_word("白く", &[RuleType::V5]), 1), None);
}

#[test]
fn apply_replaces_the_last_characters() {
    let w = typed_word("勉強しなかった", &[]);
    let r = plain_rule("ない", &[], &[RuleType::AdjI]);
    assert_eq!(r.apply(&w, 4), Some("勉強しない".to_string()));
    assert_eq!(r.apply(&w, 0), Some("勉強しなかったない".to_string()));
    assert_eq!(r.apply(&w, 7), Some("ない".to_string()));
    assert_eq!(plain_rule("", &[], &[RuleType::V1]).apply(&w, 1), Some("勉強しなかっ".to_string()));
}

#[test]
fn apply_counts_characters_not_bytes() {
    let w = typed_word("aéた", &[]);
    let r = plain_rule("る", &[], &[RuleType::V1]);
    assert_eq!(r.apply(&w, 1), Some("aéる".to_string()));
    assert_eq!(r.apply(&w, 2), Some("aる".to_string()));
    assert_eq!(r.apply(&w, 3), Some("る".to_string()));
}

#[test]
fn apply_gives_nothing_for_a_suffix_longer_than_the_word() {
    let r = plain_rule("る", &[], &[RuleType::V1]);
    assert_eq!(r.apply(&typed_word("た", &[]), 2), None);
    assert_eq!(r.apply(&typed_word("", &[]), 1), None);
    assert_eq!(r.apply(&typed_word("食べた", &[]), 4), None);
    assert_eq!(r.apply(&typed_word("食べた", &[]), usize::MAX), None);
    assert_eq!(r.apply(&typed_word("", &[]), 0), Some("る".to_string()));
}

#[test]
fn one_iteration_on_a_surface_form() {
    let found = deinflect_one_iteration(&typed_word("食べた", &[]));
    assert_eq!(listed_words(&found), vec![("食べる", vec![RuleType::V1])]);
    let found = deinflect_one_iteration(&typed_word("食べて", &[]));
    assert_eq!(
        listed_words(&found),
        vec![
            ("食べる", vec![RuleType::V1]),
            ("食べつ", vec![RuleType::V5]),
            ("食べてる", vec![RuleType::V1]),
        ]
    );
}

#[test]
fn one_iteration_on_a_word_with_classes() {
    let found = deinflect_one_iteration(&typed_word("食べて", &[RuleType::Iru]));
    assert_eq!(listed_words(&found), vec![("食べる", vec![RuleType::V1])]);
    let found = deinflect_one_iteration(&typed_word("食べて", &[RuleType::V5]));
    assert_eq!(listed_words(&found), vec![]);
}

#[test]
fn one_iteration_tries_longer_suffixes_first() {
    let found = deinflect_one_iteration(&typed_word("した", &[]));
    assert_eq!(
        listed_words(&found),
        vec![
            ("す", vec![RuleType::V5]),
            ("する", vec![RuleType::Vs]),
            ("しる", vec![RuleType::V1]),
        ]
    );
}

#[test]
fn one_iteration_on_words_without_a_known_suffix() {
    assert_eq!(listed_words(&deinflect_one_iteration(&typed_word("", &[]))), vec![]);
    assert_eq!(listed_words(&deinflect_one_iteration(&typed_word("あ", &[]))), vec![]);
    assert_eq!(listed_words(&deinflect_one_iteration(&typed_word("hello", &[]))), vec![]);
}
