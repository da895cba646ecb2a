//! Tests of the tagged-word encoding: round trips, boundary behaviour,
//! classification closure and the special constants.

use erlvm::term::primary::{get_primary_tag, primary_compose, primary_value, PrimaryTag,
    TAG_PRIMARY_BOX};
use erlvm::term::imm1::{combine_imm1_checked, combine_imm1_prefix_and_val, get_imm1_prefix,
    get_imm1_tag, imm1_value, is_immediate1, Immediate1, IMM1_PID_PREFIX, IMM1_SMALL_PREFIX,
    IMM1_PREFIX};
use erlvm::term::imm2::{combine_imm2_checked, combine_imm2_prefix_and_val,
    combine_imm2_prefix_and_val_const, get_imm2_prefix, get_imm2_prefix_and_tag, get_imm2_tag,
    get_imm2_value, is_immediate2, IMM2_ATOM_PREFIX, IMM2_PREFIX, IMM2_SPECIAL_PREFIX,
    TAG_IMM2_ATOM, TAG_IMM2_SPECIAL, IMMEDIATE2_MAX};
use erlvm::term::lterm::{make_box, LTerm};
use erlvm::term::classify::classify;

#[test]
fn imm1_round_trip() {
    let w = combine_imm1_prefix_and_val(12345, IMM1_SMALL_PREFIX);
    assert!(is_immediate1(w));
    assert_eq!(get_imm1_prefix(w), IMM1_SMALL_PREFIX);
    assert_eq!(get_imm1_tag(w), Immediate1::Small);
    assert_eq!(imm1_value(w), 12345);
}

#[test]
fn is_immediate1_follows_the_primary_tag() {
    // Immediate words of every imm1 tag are immediates; other primary
    // classes are not.
    for t in [
        LTerm::make_local_pid(4),
        LTerm::make_small(4),
        LTerm::make_atom(4),
        LTerm::nil(),
        LTerm::non_value(),
    ] {
        assert!(is_immediate1(t.value));
    }
    assert!(!is_immediate1(make_box(4).value));
    assert!(!is_immediate1(0));
}

#[test]
fn imm1_round_trip_pid() {
    // The pid prefix carries imm1 tag zero, so it equals the bare imm1 prefix.
    let w = combine_imm1_prefix_and_val(77, IMM1_PID_PREFIX);
    assert!(is_immediate1(w));
    assert_eq!(get_imm1_prefix(w), IMM1_PREFIX);
    assert_eq!(get_imm1_tag(w), Immediate1::Pid);
    assert_eq!(imm1_value(w), 77);
}

#[test]
fn imm2_round_trip() {
    let w = combine_imm2_prefix_and_val(999, IMM2_ATOM_PREFIX);
    assert!(is_immediate2(w));
    assert_eq!(get_imm2_prefix(w), IMM2_PREFIX);
    assert_eq!(get_imm2_prefix_and_tag(w), IMM2_ATOM_PREFIX);
    assert_eq!(get_imm2_tag(w), TAG_IMM2_ATOM);
    assert_eq!(get_imm2_value(w), 999);
}

#[test]
fn imm2_const_composition_matches() {
    let a = combine_imm2_prefix_and_val(4242, IMM2_ATOM_PREFIX);
    let b = combine_imm2_prefix_and_val_const(4242, IMM2_ATOM_PREFIX);
    assert_eq!(a, b);
}

#[test]
fn imm1_boundary() {
    let max = (1u64 << 60) - 1;
    let ok = combine_imm1_checked(max, IMM1_SMALL_PREFIX);
    assert!(ok.is_some());
    let w = ok.unwrap();
    assert_eq!(imm1_value(w), max);
    assert_eq!(get_imm1_tag(w), Immediate1::Small);
    assert!(combine_imm1_checked(1u64 << 60, IMM1_SMALL_PREFIX).is_none());
    assert!(combine_imm1_checked(u64::MAX, IMM1_SMALL_PREFIX).is_none());
}

#[test]
fn imm2_boundary() {
    let max = (1u64 << 58) - 1;
    let ok = combine_imm2_checked(max, IMM2_ATOM_PREFIX);
    assert!(ok.is_some());
    let w = ok.unwrap();
    assert_eq!(get_imm2_value(w), max);
    assert_eq!(get_imm2_tag(w), TAG_IMM2_ATOM);
    assert!(combine_imm2_checked(1u64 << 58, IMM2_ATOM_PREFIX).is_none());
}

#[test]
fn primary_round_trip() {
    let w = primary_compose(TAG_PRIMARY_BOX, 500);
    assert_eq!(get_primary_tag(w), PrimaryTag::Boxed);
    assert_eq!(primary_value(w), 500);
}

#[test]
fn classification_closure() {
    // Whatever the word, every decoded tag lies in its closed enumeration.
    let words = [0u64, 1, 2, 3, 0xFF, u64::MAX, LTerm::nil().value,
        LTerm::non_value().value, combine_imm1_prefix_and_val(9, IMM1_SMALL_PREFIX),
        combine_imm2_prefix_and_val(9, IMM2_ATOM_PREFIX), make_box(3).value];
    for w in words {
        let c = classify(w);
        assert!(get_imm2_tag(w) <= IMMEDIATE2_MAX);
        match c.primary {
            PrimaryTag::Header | PrimaryTag::Cons | PrimaryTag::Boxed | PrimaryTag::Immediate => {},
        }
        if let Some(t) = c.imm2 {
            assert!(t <= IMMEDIATE2_MAX);
        }
    }
}

#[test]
fn classification_levels() {
    let boxed = make_box(3);
    let c = classify(boxed.value);
    assert_eq!(c.primary, PrimaryTag::Boxed);
    assert!(c.imm1.is_none());
    assert!(c.imm2.is_none());

    let small = LTerm::make_small(11);
    let c = classify(small.value);
    assert_eq!(c.primary, PrimaryTag::Immediate);
    assert_eq!(c.imm1, Some(Immediate1::Small));
    assert!(c.imm2.is_none());

    let atom = LTerm::make_atom(5);
    let c = classify(atom.value);
    assert_eq!(c.primary, PrimaryTag::Immediate);
    assert_eq!(c.imm1, Some(Immediate1::Immed2));
    assert_eq!(c.imm2, Some(TAG_IMM2_ATOM));
}

#[test]
fn special_constants_distinct_and_stable() {
    let nil = LTerm::nil();
    let nonv = LTerm::non_value();
    let tup = LTerm::empty_tuple();
    let bin = LTerm::empty_binary();
    // Stable across repeated calls.
    assert_eq!(nil, LTerm::nil());
    assert_eq!(nonv, LTerm::non_value());
    assert_eq!(tup, LTerm::empty_tuple());
    assert_eq!(bin, LTerm::empty_binary());
    // Mutually distinguishable.
    assert_ne!(nil, nonv);
    assert_ne!(nil, tup);
    assert_ne!(nil, bin);
    assert_ne!(nonv, tup);
    assert_ne!(nonv, bin);
    assert_ne!(tup, bin);
    // Each decodes as a special immediate-2.
    for t in [nil, nonv, tup, bin] {
        assert!(is_immediate2(t.value));
        assert_eq!(get_imm2_tag(t.value), TAG_IMM2_SPECIAL);
        assert_eq!(get_imm2_prefix_and_tag(t.value), IMM2_SPECIAL_PREFIX);
    }
    assert!(nil.is_nil());
    assert!(!nil.is_non_value());
    assert!(nonv.is_non_value());
}

#[test]
fn non_value_distinct_from_encodable_values() {
    let nonv = LTerm::non_value();
    assert_ne!(LTerm::make_small(0), nonv);
    assert_ne!(LTerm::make_small((1u64 << 60) - 1), nonv);
    assert_ne!(LTerm::make_local_pid(1), nonv);
    assert_ne!(LTerm::make_atom(77), nonv);
    assert_ne!(make_box(0), nonv);
    assert_ne!(make_box((1u64 << 62) - 1), nonv);
}
