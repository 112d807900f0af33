use jp_deinflector::deinflect::DeinflectionRule;
use jp_deinflector::deinflection_rules::{
    get_deinflection_rules, DEINFLECTION_RULES, MAX_SUFFIX_LENGTH, RULE_COUNT,
};
use jp_deinflector::grammar::{RuleType, RuleTypeSet};

fn listed_rules(rules: &[DeinflectionRule]) -> Vec<(&'static str, Vec<RuleType>, Vec<RuleType>)> {
    rules
        .iter()
        .map(|rule| (rule.kana_out, rule.rules_in.to_vec(), rule.rules_out.to_vec()))
        .collect()
}

#[test]
fn table_constants() {
    assert_eq!(MAX_SUFFIX_LENGTH, 7);
    assert_eq!(RULE_COUNT, 569);
    assert_eq!(DEINFLECTION_RULES.len(), RULE_COUNT);
}

#[test]
fn a_suffix_with_one_rule() {
    let rules = get_deinflection_rules("ければ").expect("the suffix is in the table");
    assert_eq!(listed_rules(&rules), vec![("い", vec![], vec![RuleType::AdjI])]);
}

#[test]
fn the_rules_of_a_suffix_come_in_the_order_of_the_table() {
    let rules = get_deinflection_rules("っちゃう").expect("the suffix is in the table");
    assert_eq!(
        listed_rules(&rules),
        vec![
            ("う", vec![RuleType::V5], vec![RuleType::V5]),
            ("く", vec![RuleType::V5], vec![RuleType::V5]),
            ("つ", vec![RuleType::V5], vec![RuleType::V5]),
            ("る", vec![RuleType::V5], vec![RuleType::V5]),
        ]
    );
    let rules = get_deinflection_rules("て").expect("the suffix is in the table");
    assert_eq!(
        listed_rules(&rules),
        vec![
            ("る", vec![RuleType::Iru], vec![RuleType::V1]),
            ("つ", vec![], vec![RuleType::V5]),
            ("てる", vec![], vec![RuleType::V1]),
        ]
    );
}

#[test]
fn a_rule_may_give_several_classes_and_no_kana() {
    let rules = get_deinflection_rules("な").expect("the suffix is in the table");
    assert_eq!(
        listed_rules(&rules),
        vec![(
            "",
            vec![],
            vec![RuleType::V1, RuleType::V5, RuleType::Vk, RuleType::Vs, RuleType::Vz]
        )]
    );
}

#[test]
fn an_unknown_suffix_has_no_rules() {
    assert!(get_deinflection_rules("").is_none());
    assert!(get_deinflection_rules("あ").is_none());
    assert!(get_deinflection_rules("hello").is_none());
    assert!(get_deinflection_rules("ければ ").is_none());
    assert!(get_deinflection_rules("けれ").is_none());
}

#[test]
fn every_row_is_found_under_its_suffix() {
    for (suffix, kana_out, rules_in, rules_out) in DEINFLECTION_RULES {
        let rules = get_deinflection_rules(suffix).expect("the suffix is in the table");
        assert!(rules.iter().any(|rule| rule.kana_out == kana_out
            && rule.rules_in == RuleTypeSet::from_bits(rules_in)
            && rule.rules_out == RuleTypeSet::from_bits(rules_out)));
        let same_suffix = DEINFLECTION_RULES.iter().filter(|row| row.0 == suffix).count();
        assert_eq!(rules.len(), same_suffix);
    }
}

#[test]
fn every_result_has_a_class_and_later_rules_do_not_lengthen_a_word() {
    for (suffix, kana_out, rules_in, rules_out) in DEINFLECTION_RULES {
        assert!(0 < rules_out && rules_out < 128, "{}", suffix);
        assert!(rules_in < 128, "{}", suffix);
        if rules_in != 0 {
            let suffix_len = suffix.chars().count();
            let kana_len = kana_out.chars().count();
            assert!(
                kana_len < suffix_len || (kana_len == suffix_len && rules_in == 2 && rules_out & 2 == 0),
                "{} -> {}",
                suffix,
                kana_out
            );
        }
    }
}

#[test]
fn every_suffix_has_one_to_seven_characters() {
    for (suffix, _, _, _) in DEINFLECTION_RULES {
        let len = suffix.chars().count();
        assert!(1 <= len && len <= MAX_SUFFIX_LENGTH, "{}", suffix);
    }
    let longest = DEINFLECTION_RULES.iter().map(|row| row.0.chars().count()).max();
    assert_eq!(longest, Some(MAX_SUFFIX_LENGTH));
}

#[test]
fn a_suffix_of_more_than_seven_characters_has_no_rules() {
    assert!(get_deinflection_rules("くありませんでした").is_none());
    assert!(get_deinflection_rules("ありませんでした").is_none());
    assert!(get_deinflection_rules("12345678").is_none());
    let rules = get_deinflection_rules("ませんでした").expect("the suffix is in the table");
    assert_eq!(rules.len(), 1);
    assert_eq!(rules[0].kana_out, "る");
}
