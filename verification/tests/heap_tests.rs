//! Tests of the heap arena and the heap object system: placement, downcast
//! safety, formatting, allocation exhaustion and teardown.

use erlvm::emulator::heap::Heap;
use erlvm::fail::RtErr;
use erlvm::term::classify::TermClass;
use erlvm::term::heapobj::{HeapObj, HeapObjType};
use erlvm::term::ho_bignum::{Bignum, HOBignum, BIGNUM_WORDS};
use erlvm::term::ho_binary::{HOBinary, BINARY_WORDS};

fn two_to_the_100() -> Bignum {
    // Little-endian base-2^32 digits: 2^100 = 2^4 * (2^32)^3.
    Bignum::new(false, vec![0, 0, 0, 16])
}

#[test]
fn bignum_normalization() {
    let a = Bignum::new(false, vec![5, 0, 0]);
    assert_eq!(a.digits, vec![5]);
    assert!(!a.negative);
    let zero = Bignum::new(true, vec![0, 0]);
    assert_eq!(zero.digits.len(), 0);
    assert!(!zero.negative);
    assert!(zero.equals(&Bignum::new(false, vec![])));
    let neg = Bignum::new(true, vec![9]);
    assert!(neg.negative);
    assert!(!neg.equals(&Bignum::new(false, vec![9])));
}

#[test]
fn bignum_end_to_end() {
    let mut hp = Heap::new(64);
    let idx = HOBignum::place_into(&mut hp, two_to_the_100()).unwrap();
    let t = HOBignum::make_term(idx);
    let back = HOBignum::from_term(&hp, t).unwrap();
    assert_eq!(back, idx);
    match hp.obj_at(back) {
        HeapObj::Bignum(b) => {
            assert!(b.value.equals(&two_to_the_100()));
            let text = b.fmt_str();
            assert_eq!(text, "Big(1267650600228229401496703205376)");
            assert!(text.contains("1267650600228229401496703205376"));
        },
        HeapObj::Binary(_) => panic!("wrong kind on heap"),
    }
}

#[test]
fn bignum_negative_formatting() {
    let mut hp = Heap::new(64);
    let value = Bignum::new(true, vec![123456789]);
    let idx = HOBignum::place_into(&mut hp, value).unwrap();
    match hp.obj_at(idx) {
        HeapObj::Bignum(b) => assert_eq!(b.fmt_str(), "Big(-123456789)"),
        HeapObj::Binary(_) => panic!("wrong kind on heap"),
    }
}

#[test]
fn downcast_safety() {
    let mut hp = Heap::new(64);
    let big_idx = HOBignum::place_into(&mut hp, two_to_the_100()).unwrap();
    let bin_idx = HOBinary::place_into(&mut hp, vec![1, 2, 3]).unwrap();
    let big_term = HOBignum::make_term(big_idx);
    let bin_term = HOBinary::make_term(bin_idx);

    // The right kind succeeds and its formatter is the kind's own.
    let p = HOBignum::from_term(&hp, big_term).unwrap();
    assert!(hp.obj_at(p).fmt_str().starts_with("Big("));
    let q = HOBinary::from_term(&hp, bin_term).unwrap();
    assert_eq!(hp.obj_at(q).fmt_str(), "Bin(3)");

    // The other kind on the same value fails with the mismatch condition.
    assert_eq!(HOBignum::from_term(&hp, bin_term), Err(RtErr::HeapObjClassMismatch));
    assert_eq!(HOBinary::from_term(&hp, big_term), Err(RtErr::HeapObjClassMismatch));
}

#[test]
fn header_and_class() {
    let mut hp = Heap::new(64);
    let idx = HOBignum::place_into(&mut hp, two_to_the_100()).unwrap();
    let obj = hp.obj_at(idx);
    assert_eq!(obj.header().n_words, BIGNUM_WORDS);
    assert_eq!(obj.header().class.obj_type, HeapObjType::Bignum);
    assert_eq!(obj.term_class(), TermClass::Number);

    let bidx = HOBinary::place_into(&mut hp, vec![7; 10]).unwrap();
    let bobj = hp.obj_at(bidx);
    assert_eq!(bobj.header().n_words, BINARY_WORDS);
    assert_eq!(bobj.term_class(), TermClass::Binary);
}

#[test]
fn allocation_exhaustion() {
    // Room for exactly one bignum record, not two.
    let mut hp = Heap::new(BIGNUM_WORDS + 2);
    assert!(HOBignum::place_into(&mut hp, two_to_the_100()).is_ok());
    assert_eq!(HOBignum::place_into(&mut hp, two_to_the_100()), Err(RtErr::HeapIsFull));
    // The failed placement left the heap unchanged.
    assert_eq!(hp.used, BIGNUM_WORDS);
    assert_eq!(hp.capacity, BIGNUM_WORDS + 2);
    // A smaller record still fits nowhere: the region is exhausted.
    assert_eq!(HOBinary::place_into(&mut hp, vec![]), Err(RtErr::HeapIsFull));
}

#[test]
fn teardown_releases_everything() {
    let mut hp = Heap::new(64);
    HOBignum::place_into(&mut hp, two_to_the_100()).unwrap();
    HOBinary::place_into(&mut hp, vec![1, 2]).unwrap();
    assert_eq!(hp.used, BIGNUM_WORDS + BINARY_WORDS);
    hp.teardown();
    assert_eq!(hp.used, 0);
    assert_eq!(hp.objects.len(), 0);
    assert_eq!(hp.capacity, 64);
}
