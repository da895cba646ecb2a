//! `LTerm`: a single tagged machine word carrying any runtime value, either an
//! immediate scalar or a boxed reference into a process heap. The special
//! singleton constants (NIL, NONVALUE, empty tuple, empty binary) are
//! precomposed once as constants rather than computed per call.

use vstd::prelude::*;
use crate::rt_defs::Word;
use crate::term::primary::TAG_PRIMARY_BOX;
use crate::term::primary::spec_primary_tag;
use crate::term::primary::spec_primary_value;
use crate::term::primary::primary_compose;
use crate::term::imm1::IMM1_PID_PREFIX;
use crate::term::imm1::IMM1_SMALL_PREFIX;
use crate::term::imm1::spec_imm1_prefix;
use crate::term::imm1::spec_imm1_value;
use crate::term::imm1::spec_imm1_combine;
use crate::term::imm1::combine_imm1_prefix_and_val;
use crate::term::imm1::get_imm1_prefix;
use crate::term::imm1::lemma_imm1_prefix_values;
use crate::term::imm2::IMM2_ATOM_PREFIX;
use crate::term::imm2::IMM2_SPECIAL_NIL_RAW;
use crate::term::imm2::IMM2_SPECIAL_NONVALUE_RAW;
use crate::term::imm2::IMM2_SPECIAL_EMPTY_TUPLE_RAW;
use crate::term::imm2::IMM2_SPECIAL_EMPTY_BIN_RAW;
use crate::term::imm2::IMM2_PREFIX;
use crate::term::imm2::TAG_IMM2_SPECIAL_NIL;
use crate::term::imm2::TAG_IMM2_SPECIAL_NONVALUE;
use crate::term::imm2::TAG_IMM2_SPECIAL_EMPTY_TUPLE;
use crate::term::imm2::TAG_IMM2_SPECIAL_EMPTY_BIN;
use crate::term::imm2::spec_imm2_combine;
use crate::term::imm2::spec_imm2_prefix;
use crate::term::imm2::spec_imm2_prefix_and_tag;
use crate::term::imm2::spec_imm2_value;
use crate::term::imm2::combine_imm2_prefix_and_val;
use crate::term::imm2::lemma_imm2_prefix_values;

verus! {

/// A tagged value: one fixed-width word, immediate or boxed. Validity is tied
/// to the word's scope only; a boxed word is a non-owning back-reference into
/// the heap that produced it.
#[derive(Debug, Copy, Clone, PartialEq, Eq, Structural)]
pub struct LTerm {
    pub value: Word,
}

impl LTerm {
    /// The NIL (empty list) singleton.
    pub open spec fn spec_is_nil(self) -> bool {
        self.value == IMM2_SPECIAL_NIL_RAW
    }

    /// The reserved sentinel that signals "no value" out of a failed
    /// value-returning operation; never a valid program value.
    pub open spec fn spec_is_non_value(self) -> bool {
        self.value == IMM2_SPECIAL_NONVALUE_RAW
    }

    /// A word whose imm1 prefix marks a local process identifier.
    pub open spec fn spec_is_local_pid(self) -> bool {
        spec_imm1_prefix(self.value) == IMM1_PID_PREFIX
    }

    /// A word whose primary tag marks a boxed heap reference.
    pub open spec fn spec_is_boxed(self) -> bool {
        spec_primary_tag(self.value) == TAG_PRIMARY_BOX
    }

    /// Heap object index carried by a boxed word.
    pub open spec fn spec_box_index(self) -> Word {
        spec_primary_value(self.value)
    }

    /// The NIL (empty list) constant.
    pub fn nil() -> (r: LTerm)
        ensures
            r.value == IMM2_SPECIAL_NIL_RAW,
    {
        LTerm { value: IMM2_SPECIAL_NIL_RAW }
    }

    /// The non-value sentinel constant.
    pub fn non_value() -> (r: LTerm)
        ensures
            r.value == IMM2_SPECIAL_NONVALUE_RAW,
    {
        LTerm { value: IMM2_SPECIAL_NONVALUE_RAW }
    }

    /// The empty-tuple constant.
    pub fn empty_tuple() -> (r: LTerm)
        ensures
            r.value == IMM2_SPECIAL_EMPTY_TUPLE_RAW,
    {
        LTerm { value: IMM2_SPECIAL_EMPTY_TUPLE_RAW }
    }

    /// The empty-binary constant.
    pub fn empty_binary() -> (r: LTerm)
        ensures
            r.value == IMM2_SPECIAL_EMPTY_BIN_RAW,
    {
        LTerm { value: IMM2_SPECIAL_EMPTY_BIN_RAW }
    }

    /// True exactly on the NIL constant.
    pub fn is_nil(&self) -> (r: bool)
        ensures
            r == self.spec_is_nil(),
    {
        self.value == IMM2_SPECIAL_NIL_RAW
    }

    /// True exactly on the non-value sentinel; every caller of a fallible
    /// value-returning operation must check this.
    pub fn is_non_value(&self) -> (r: bool)
        ensures
            r == self.spec_is_non_value(),
    {
        self.value == IMM2_SPECIAL_NONVALUE_RAW
    }

    /// True exactly when the word is tagged as a local process identifier.
    pub fn is_local_pid(&self) -> (r: bool)
        ensures
            r == self.spec_is_local_pid(),
    {
        get_imm1_prefix(self.value) == IMM1_PID_PREFIX
    }

    /// True exactly when the word is a boxed heap reference.
    pub fn is_boxed(&self) -> (r: bool)
        ensures
            r == self.spec_is_boxed(),
    {
        let t: Word = self.value & 3;
        t == TAG_PRIMARY_BOX
    }

    /// Heap object index carried by a boxed word.
    pub fn box_index(&self) -> (r: Word)
        requires
            self.spec_is_boxed(),
        ensures
            r == self.spec_box_index(),
    {
        self.value >> 2u64
    }

    /// Compose a local process identifier from its serial number.
    pub fn make_local_pid(pid: Word) -> (r: LTerm)
        requires
            pid < 0x1000_0000_0000_0000,
        ensures
            r.value == spec_imm1_combine(pid, IMM1_PID_PREFIX),
            r.spec_is_local_pid(),
            spec_imm1_value(r.value) == pid,
    {
        proof {
            lemma_imm1_prefix_values();
        }
        LTerm { value: combine_imm1_prefix_and_val(pid, IMM1_PID_PREFIX) }
    }

    /// Compose a small integer immediate from its unsigned payload.
    pub fn make_small(v: Word) -> (r: LTerm)
        requires
            v < 0x1000_0000_0000_0000,
        ensures
            r.value == spec_imm1_combine(v, IMM1_SMALL_PREFIX),
            spec_imm1_prefix(r.value) == IMM1_SMALL_PREFIX,
            spec_imm1_value(r.value) == v,
    {
        proof {
            lemma_imm1_prefix_values();
        }
        LTerm { value: combine_imm1_prefix_and_val(v, IMM1_SMALL_PREFIX) }
    }

    /// Compose an atom immediate from the atom's table index.
    pub fn make_atom(index: Word) -> (r: LTerm)
        requires
            index < 0x0400_0000_0000_0000,
        ensures
            r.value == spec_imm2_combine(index, IMM2_ATOM_PREFIX),
    {
        proof {
            lemma_imm2_prefix_values();
        }
        LTerm { value: combine_imm2_prefix_and_val(index, IMM2_ATOM_PREFIX) }
    }
}

/// Compose a boxed heap reference wrapping a heap object index.
pub fn make_box(index: Word) -> (r: LTerm)
    requires
        index < 0x4000_0000_0000_0000,
    ensures
        r.value == (TAG_PRIMARY_BOX | (index << 2)),
        r.spec_is_boxed(),
        r.spec_box_index() == index,
{
    LTerm { value: primary_compose(TAG_PRIMARY_BOX, index) }
}

/// Law: the four reserved special constants are mutually distinguishable, and
/// they decode stably: each carries the imm2 prefix that admits payload
/// extraction, and extraction — a pure function of the word — yields its own
/// payload, distinct from the other three, on this call and every later one.
pub proof fn lemma_special_constants_distinct()
    ensures
        IMM2_SPECIAL_NIL_RAW != IMM2_SPECIAL_NONVALUE_RAW,
        IMM2_SPECIAL_NIL_RAW != IMM2_SPECIAL_EMPTY_TUPLE_RAW,
        IMM2_SPECIAL_NIL_RAW != IMM2_SPECIAL_EMPTY_BIN_RAW,
        IMM2_SPECIAL_NONVALUE_RAW != IMM2_SPECIAL_EMPTY_TUPLE_RAW,
        IMM2_SPECIAL_NONVALUE_RAW != IMM2_SPECIAL_EMPTY_BIN_RAW,
        IMM2_SPECIAL_EMPTY_TUPLE_RAW != IMM2_SPECIAL_EMPTY_BIN_RAW,
        spec_imm2_prefix(IMM2_SPECIAL_NIL_RAW) == IMM2_PREFIX,
        spec_imm2_prefix(IMM2_SPECIAL_NONVALUE_RAW) == IMM2_PREFIX,
        spec_imm2_prefix(IMM2_SPECIAL_EMPTY_TUPLE_RAW) == IMM2_PREFIX,
        spec_imm2_prefix(IMM2_SPECIAL_EMPTY_BIN_RAW) == IMM2_PREFIX,
        spec_imm2_value(IMM2_SPECIAL_NIL_RAW) == TAG_IMM2_SPECIAL_NIL,
        spec_imm2_value(IMM2_SPECIAL_NONVALUE_RAW) == TAG_IMM2_SPECIAL_NONVALUE,
        spec_imm2_value(IMM2_SPECIAL_EMPTY_TUPLE_RAW) == TAG_IMM2_SPECIAL_EMPTY_TUPLE,
        spec_imm2_value(IMM2_SPECIAL_EMPTY_BIN_RAW) == TAG_IMM2_SPECIAL_EMPTY_BIN,
{
    lemma_imm2_prefix_values();
    assert(0x4_0404_043Bu64 & 0xF == 0xB && 0x4_0404_043Bu64 >> 6 == 0x1010_1010)
        by (bit_vector);
    assert(0xC_0C0C_0C3Bu64 & 0xF == 0xB && 0xC_0C0C_0C3Bu64 >> 6 == 0x3030_3030)
        by (bit_vector);
    assert(0x14_1414_143Bu64 & 0xF == 0xB && 0x14_1414_143Bu64 >> 6 == 0x5050_5050)
        by (bit_vector);
    assert(0x1C_1C1C_1C3Bu64 & 0xF == 0xB && 0x1C_1C1C_1C3Bu64 >> 6 == 0x7070_7070)
        by (bit_vector);
}

/// Law: the non-value sentinel is distinguishable from every legitimately
/// encodable value. No word of another primary class, no immediate of another
/// imm1 tag, no immediate-2 of another imm2 tag, and no other special constant
/// equals it.
pub proof fn lemma_non_value_distinct(w: Word)
    ensures
        spec_primary_tag(w) != 3 ==> w != IMM2_SPECIAL_NONVALUE_RAW,
        spec_imm1_prefix(w) != 0xB ==> w != IMM2_SPECIAL_NONVALUE_RAW,
        spec_imm2_prefix_and_tag(w) != 0x3B ==> w != IMM2_SPECIAL_NONVALUE_RAW,
        w == IMM2_SPECIAL_NIL_RAW || w == IMM2_SPECIAL_EMPTY_TUPLE_RAW
            || w == IMM2_SPECIAL_EMPTY_BIN_RAW ==> w != IMM2_SPECIAL_NONVALUE_RAW,
{
    lemma_imm2_prefix_values();
    assert((w & 3 != 3 ==> w != 0xC_0C0C_0C3Bu64) && (w & 0xF != 0xB ==> w != 0xC_0C0C_0C3Bu64)
        && (w & 0x3F != 0x3B ==> w != 0xC_0C0C_0C3Bu64)) by (bit_vector);
}

} // verus!
