use jp_deinflector::grammar::{CLASSES, RuleType, RuleTypeSet};

#[test]
fn only_the_adjective_class_is_no_verb() {
    assert!(RuleType::AdjI.is_adjective());
    assert!(!RuleType::AdjI.is_verb());
    for class in [
        RuleType::Iru,
        RuleType::V1,
        RuleType::V5,
        RuleType::Vk,
        RuleType::Vs,
        RuleType::Vz,
    ] {
        assert!(class.is_verb(), "{:?}", class);
        assert!(!class.is_adjective(), "{:?}", class);
    }
}

#[test]
fn empty_set_holds_nothing() {
    let none = RuleTypeSet::empty();
    assert!(none.is_empty());
    assert_eq!(none.to_bits(), 0);
    assert_eq!(none.to_vec(), vec![]);
    for class in CLASSES {
        assert!(!none.contains(class));
    }
    assert!(!none.has_verb());
    assert!(!none.intersects(&none));
}

#[test]
fn set_from_slice_holds_the_classes_of_the_slice() {
    let set = RuleTypeSet::from_slice(&[RuleType::V5, RuleType::AdjI, RuleType::V5]);
    assert!(!set.is_empty());
    assert!(set.contains(RuleType::AdjI));
    assert!(set.contains(RuleType::V5));
    assert!(!set.contains(RuleType::Iru));
    assert!(!set.contains(RuleType::V1));
    assert!(!set.contains(RuleType::Vk));
    assert!(!set.contains(RuleType::Vs));
    assert!(!set.contains(RuleType::Vz));
    assert_eq!(set.to_bits(), 1 + 8);
    assert_eq!(set.to_vec(), vec![RuleType::AdjI, RuleType::V5]);
}

#[test]
fn set_does_not_depend_on_the_order_of_the_slice() {
    let a = RuleTypeSet::from_slice(&[RuleType::V1, RuleType::V5]);
    let b = RuleTypeSet::from_slice(&[RuleType::V5, RuleType::V1]);
    assert_eq!(a, b);
    assert_eq!(a.to_bits(), b.to_bits());
    assert_ne!(a, RuleTypeSet::from_slice(&[RuleType::V1]));
}

#[test]
fn each_class_has_its_own_weight() {
    let weights = [1u8, 2, 4, 8, 16, 32, 64];
    for (class, weight) in CLASSES.iter().zip(weights) {
        let set = RuleTypeSet::from_slice(&[*class]);
        assert_eq!(set.to_bits(), weight);
        assert_eq!(set.to_vec(), vec![*class]);
        assert_eq!(RuleTypeSet::from_bits(weight), set);
    }
}

#[test]
fn encoding_keeps_the_seven_low_bits() {
    assert_eq!(RuleTypeSet::from_bits(128), RuleTypeSet::empty());
    assert_eq!(RuleTypeSet::from_bits(255).to_bits(), 127);
    assert_eq!(RuleTypeSet::from_bits(255).to_vec(), CLASSES.to_vec());
    assert_eq!(
        RuleTypeSet::from_bits(124).to_vec(),
        vec![RuleType::V1, RuleType::V5, RuleType::Vk, RuleType::Vs, RuleType::Vz]
    );
}

#[test]
fn sets_intersect_when_they_share_a_class() {
    let v1_v5 = RuleTypeSet::from_slice(&[RuleType::V1, RuleType::V5]);
    let v5_vk = RuleTypeSet::from_slice(&[RuleType::V5, RuleType::Vk]);
    let adj = RuleTypeSet::from_slice(&[RuleType::AdjI]);
    assert!(v1_v5.intersects(&v5_vk));
    assert!(v5_vk.intersects(&v1_v5));
    assert!(!v1_v5.intersects(&adj));
    assert!(!adj.intersects(&RuleTypeSet::empty()));
    assert!(adj.intersects(&adj));
}

#[test]
fn has_verb_looks_past_the_adjective_class() {
    assert!(!RuleTypeSet::from_slice(&[RuleType::AdjI]).has_verb());
    assert!(RuleTypeSet::from_slice(&[RuleType::AdjI, RuleType::Vz]).has_verb());
    assert!(RuleTypeSet::from_slice(&[RuleType::Iru]).has_verb());
}
