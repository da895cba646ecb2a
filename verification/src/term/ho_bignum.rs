//! Heap object which stores a bignum: an arbitrary-precision signed integer,
//! held as a sign and little-endian base-2^32 digits. The digit storage is
//! managed as auxiliary memory, so the record occupies a fixed word count on
//! the process heap.

use vstd::prelude::*;
use vstd::string::StringExecFns;
use crate::rt_defs::Word;
use crate::decimal::spec_dec;
use crate::fail::Hopefully;
use crate::fail::RtErr;
use crate::term::lterm::LTerm;
use crate::term::lterm::make_box;
use crate::term::heapobj::HeapObj;
use crate::term::heapobj::HeapObjHeader;
use crate::term::heapobj::HeapObjType;
use crate::term::heapobj::class_of;
use crate::term::heapobj::get_class;
use crate::emulator::heap::Heap;

verus! {

/// Words one bignum record occupies on the process heap: the header plus the
/// sign and the digit-storage record, whose digits live in auxiliary memory.
pub const BIGNUM_WORDS: Word = 6;

/// An arbitrary-precision signed integer in sign-magnitude form: little-endian
/// base-2^32 digits, normalized so that the top digit is never zero and zero
/// itself is non-negative with no digits.
#[derive(Debug, Clone)]
pub struct Bignum {
    pub negative: bool,
    pub digits: Vec<u32>,
}

/// The magnitude that a little-endian digit sequence denotes.
pub open spec fn limbs_value(digits: Seq<u32>) -> nat
    decreases digits.len(),
{
    if digits.len() == 0 {
        0
    } else {
        (digits[0] + 0x1_0000_0000 * limbs_value(digits.skip(1))) as nat
    }
}

impl Bignum {
    /// Normal form: no leading zero digit, and a negative sign only on a
    /// number that has digits at all.
    pub open spec fn wf(self) -> bool {
        (self.digits@.len() == 0 || self.digits@.last() != 0) && (self.negative
            ==> self.digits@.len() > 0)
    }

    /// The signed integer this record denotes.
    pub open spec fn spec_value(self) -> int {
        if self.negative {
            -(limbs_value(self.digits@) as int)
        } else {
            limbs_value(self.digits@) as int
        }
    }

    /// Build a normalized bignum from a sign and digits: trailing zero digits
    /// are dropped and a zero magnitude loses its sign, keeping the denoted
    /// value exactly.
    pub fn new(negative: bool, digits: Vec<u32>) -> (r: Bignum)
        ensures
            r.wf(),
            limbs_value(r.digits@) == limbs_value(digits@),
            r.spec_value() == (if negative {
                -(limbs_value(digits@) as int)
            } else {
                limbs_value(digits@) as int
            }),
    {
        let mut d = digits;
        while d.len() > 0 && d[d.len() - 1] == 0
            invariant
                limbs_value(d@) == limbs_value(digits@),
            decreases d.len(),
        {
            proof {
                lemma_limbs_drop_last_zero(d@);
            }
            let _ = d.pop();
        }
        if d.len() == 0 {
            Bignum { negative: false, digits: d }
        } else {
            proof {
                lemma_limbs_last_nonzero(d@);
            }
            Bignum { negative, digits: d }
        }
    }

    /// Exact comparison: true when both records carry the same sign and the
    /// same digits; for normalized records that is exactly value equality.
    pub fn equals(&self, other: &Bignum) -> (r: bool)
        ensures
            r == (self.negative == other.negative && self.digits@ == other.digits@),
            self.wf() && other.wf() ==> r == (self.spec_value() == other.spec_value()),
    {
        proof {
            if self.wf() && other.wf() {
                lemma_bignum_canonical(*self, *other);
            }
        }
        if self.negative != other.negative {
            return false;
        }
        if self.digits.len() != other.digits.len() {
            proof {
                assert(self.digits@ != other.digits@);
            }
            return false;
        }
        let n = self.digits.len();
        let mut i: usize = 0;
        while i < n
            invariant
                n == self.digits@.len() == other.digits@.len(),
                i <= n,
                forall|k: int| 0 <= k < i ==> self.digits@[k] == other.digits@[k],
            decreases n - i,
        {
            if self.digits[i] != other.digits[i] {
                proof {
                    assert(self.digits@ != other.digits@);
                    if self.wf() && other.wf() {
                        lemma_bignum_canonical(*self, *other);
                    }
                }
                return false;
            }
            i = i + 1;
        }
        proof {
            assert(self.digits@ =~= other.digits@);
        }
        true
    }
}

/// Dropping a zero top digit keeps the denoted magnitude.
proof fn lemma_limbs_drop_last_zero(s: Seq<u32>)
    requires
        s.len() > 0,
        s.last() == 0,
    ensures
        limbs_value(s.drop_last()) == limbs_value(s),
    decreases s.len(),
{
    if s.len() == 1 {
        assert(s.drop_last() =~= Seq::<u32>::empty());
        assert(s.skip(1) =~= Seq::<u32>::empty());
    } else {
        lemma_limbs_drop_last_zero(s.skip(1));
        assert(s.drop_last().skip(1) =~= s.skip(1).drop_last());
        assert(s.drop_last()[0] == s[0]);
    }
}

/// A digit sequence whose top digit is nonzero denotes a nonzero magnitude.
proof fn lemma_limbs_last_nonzero(s: Seq<u32>)
    requires
        s.len() > 0,
        s.last() != 0,
    ensures
        limbs_value(s) > 0,
    decreases s.len(),
{
    if s.len() == 1 {
        assert(limbs_value(s.skip(1)) == 0);
    } else {
        lemma_limbs_last_nonzero(s.skip(1));
    }
}

/// A magnitude determines its normalized digits: two digit sequences without
/// leading zero digits that denote the same magnitude are identical.
proof fn lemma_limbs_injective(a: Seq<u32>, b: Seq<u32>)
    requires
        a.len() == 0 || a.last() != 0,
        b.len() == 0 || b.last() != 0,
        limbs_value(a) == limbs_value(b),
    ensures
        a == b,
    decreases a.len(),
{
    if a.len() == 0 {
        if b.len() > 0 {
            lemma_limbs_last_nonzero(b);
        }
        assert(a =~= b);
    } else if b.len() == 0 {
        lemma_limbs_last_nonzero(a);
    } else {
        let a0 = a[0] as int;
        let b0 = b[0] as int;
        let ra = limbs_value(a.skip(1)) as int;
        let rb = limbs_value(b.skip(1)) as int;
        assert(a0 + 0x1_0000_0000 * ra == b0 + 0x1_0000_0000 * rb);
        assert(a0 == b0 && ra == rb);
        if a.len() > 1 {
            assert(a.skip(1).last() == a.last());
        }
        if b.len() > 1 {
            assert(b.skip(1).last() == b.last());
        }
        lemma_limbs_injective(a.skip(1), b.skip(1));
        assert(a.len() == b.len());
        assert forall|i: int| 0 <= i < a.len() implies a[i] == b[i] by {
            if i > 0 {
                assert(a.skip(1)[i - 1] == a[i]);
                assert(b.skip(1)[i - 1] == b[i]);
            }
        }
        assert(a =~= b);
    }
}

/// Law (canonical representation): two normalized bignum records denote the
/// same signed value exactly when they are the same record, sign and digits
/// alike.
pub proof fn lemma_bignum_canonical(a: Bignum, b: Bignum)
    requires
        a.wf(),
        b.wf(),
    ensures
        (a.spec_value() == b.spec_value()) <==> (a.negative == b.negative && a.digits@
            == b.digits@),
{
    if a.spec_value() == b.spec_value() {
        if a.negative != b.negative {
            if a.negative {
                lemma_limbs_last_nonzero(a.digits@);
            } else {
                lemma_limbs_last_nonzero(b.digits@);
            }
        } else {
            lemma_limbs_injective(a.digits@, b.digits@);
        }
    }
}

/// Decimal rendering of the signed integer given by a sign and little-endian
/// base-2^32 digits: the magnitude's decimal digits, behind a minus sign
/// exactly when the value is negative and nonzero.
pub open spec fn spec_bigint_dec(negative: bool, digits: Seq<u32>) -> Seq<char> {
    if negative && limbs_value(digits) != 0 {
        seq!['-'] + spec_dec(limbs_value(digits))
    } else {
        spec_dec(limbs_value(digits))
    }
}

/// Relies on num's `BigInt::from_slice`, which builds the integer from a sign
/// and little-endian base-2^32 digits (normalizing away the sign of a zero
/// magnitude), and on its `Display`, which renders the magnitude's decimal
/// digits without leading zeros, zero as one digit, behind a minus sign
/// exactly when the value is negative.
#[verifier::external_body]
fn bigint_decimal(negative: bool, digits: &Vec<u32>) -> (r: String)
    ensures
        r@ == spec_bigint_dec(negative, digits@),
{
    let sign = if negative { num::bigint::Sign::Minus } else { num::bigint::Sign::Plus };
    let value = num::bigint::BigInt::from_slice(sign, digits.as_slice());
    format!("{}", value)
}

/// Textual form of a bignum record: the decimal value wrapped in the big
/// number marker.
pub open spec fn spec_bignum_fmt(v: Bignum) -> Seq<char> {
    seq!['B', 'i', 'g', '('] + spec_bigint_dec(v.negative, v.digits@) + seq![')']
}

/// Heap object `HOBignum` is placed on the heap by the VM and contains a
/// signed big integer.
#[derive(Debug, Clone)]
pub struct HOBignum {
    /// Header carrying the record's word count and its class descriptor.
    pub hobj: HeapObjHeader,
    /// The actual value. The digit storage manages its own auxiliary memory.
    pub value: Bignum,
}

/// The heap object that placing a bignum value produces.
pub open spec fn spec_bignum_obj(value: Bignum) -> HeapObj {
    HeapObj::Bignum(
        HOBignum {
            hobj: HeapObjHeader { n_words: BIGNUM_WORDS, class: class_of(HeapObjType::Bignum) },
            value,
        },
    )
}

impl HOBignum {
    /// Words this kind occupies on the heap.
    pub fn storage_size() -> (r: Word)
        ensures
            r == BIGNUM_WORDS,
    {
        BIGNUM_WORDS
    }

    /// Build the record with its header filled in.
    fn new(n_words: Word, value: Bignum) -> (r: HOBignum)
        ensures
            r.hobj.n_words == n_words,
            r.hobj.class == class_of(HeapObjType::Bignum),
            r.value == value,
    {
        HOBignum { hobj: HeapObjHeader::new(n_words, get_class(HeapObjType::Bignum)), value }
    }

    /// Destructor: releases the auxiliary storage used by the value. Invoked
    /// only by the owning heap's teardown through the class descriptor.
    pub fn dtor(&mut self)
        ensures
            final(self).hobj == old(self).hobj,
            final(self).value.digits@.len() == 0,
            !final(self).value.negative,
    {
        self.value = Bignum { negative: false, digits: Vec::new() };
    }

    /// Format as a string: the decimal value inside the big number marker.
    pub fn fmt_str(&self) -> (r: String)
        ensures
            r@ == spec_bignum_fmt(self.value),
    {
        let mut s = String::from_str("Big(");
        let dec = bigint_decimal(self.value.negative, &self.value.digits);
        s.append(dec.as_str());
        s.append(")");
        proof {
            reveal_strlit("Big(");
            reveal_strlit(")");
            assert("Big("@ =~= seq!['B', 'i', 'g', '(']);
            assert(")"@ =~= seq![')']);
            assert(s@ =~= spec_bignum_fmt(self.value));
        }
        s
    }

    /// Allocate space on the heap for the record and initialize its fields.
    /// Fails exactly when the arena cannot satisfy the request, leaving the
    /// heap unchanged.
    pub fn place_into(hp: &mut Heap, value: Bignum) -> (r: Hopefully<usize>)
        requires
            old(hp).wf(),
        ensures
            final(hp).wf(),
            final(hp).capacity == old(hp).capacity,
            match r {
                Ok(idx) => idx == old(hp).objects@.len() && final(hp).objects@ == old(
                    hp,
                ).objects@.push(spec_bignum_obj(value)) && final(hp).used == old(hp).used
                    + BIGNUM_WORDS && old(hp).used + BIGNUM_WORDS <= old(hp).capacity,
                Err(e) => e == RtErr::HeapIsFull && *final(hp) == *old(hp) && old(hp).used
                    + BIGNUM_WORDS > old(hp).capacity,
            },
    {
        let n_words = HOBignum::storage_size();
        let this = HOBignum::new(n_words, value);
        hp.place(HeapObj::Bignum(this))
    }

    /// Given a term, unbox it and locate the bignum it references. The word
    /// must be a boxed reference into this heap; the downcast succeeds exactly
    /// when the referenced object's class descriptor is the bignum class.
    pub fn from_term(hp: &Heap, t: LTerm) -> (r: Hopefully<usize>)
        requires
            hp.wf(),
            t.spec_is_boxed(),
            t.spec_box_index() < hp.objects@.len(),
        ensures
            match r {
                Ok(idx) => idx == t.spec_box_index() && hp.objects@[idx as int] is Bignum,
                Err(e) => e == RtErr::HeapObjClassMismatch && !(hp.objects@[t.spec_box_index()
                    as int] is Bignum),
            },
    {
        let idx64 = t.box_index();
        let len = hp.objects.len();
        proof {
            assert(idx64 < len as u64);
            assert(hp.objects@[idx64 as int].wf());
        }
        let idx = idx64 as usize;
        let obj = hp.obj_at(idx);
        let hdr = obj.header();
        if hdr.class == get_class(HeapObjType::Bignum) {
            Ok(idx)
        } else {
            Err(RtErr::HeapObjClassMismatch)
        }
    }

    /// Compose a boxed term wrapping a bignum record's heap location; total
    /// for every location the heap can hold.
    pub fn make_term(idx: usize) -> (r: LTerm)
        requires
            (idx as u64) < 0x4000_0000_0000_0000,
        ensures
            r.spec_is_boxed(),
            r.spec_box_index() == idx as u64,
    {
        make_box(idx as u64)
    }
}

} // verus!
