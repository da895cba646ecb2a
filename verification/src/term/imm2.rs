//! Immediate-2 values: the second nested tag level inside an immediate word.
//! Bit composition is `.... .... ..bb aaPP`, where `PP` is the primary tag,
//! `aa` is the imm1 tag and `bb` is the imm2 tag; the payload occupies the
//! remaining 58 high bits.

use vstd::prelude::*;
use crate::rt_defs::Word;
use crate::rt_defs::WORD_BITS;
use crate::term::imm1::IMM1_PREFIX;
use crate::term::imm1::IMM1_TAG_FIRST;
use crate::term::imm1::TAG_IMM1_IMM2;

verus! {

/// Bit position where the imm2 tag begins.
pub const IMM2_TAG_FIRST: Word = 4;

/// Bit position just past the imm2 tag.
pub const IMM2_TAG_LAST: Word = 6;

/// Bit position where the imm2 payload begins.
pub const IMM2_VALUE_FIRST: Word = IMM2_TAG_LAST;

/// Bit position just past the imm2 payload.
pub const IMM2_VALUE_LAST: Word = WORD_BITS;

/// Raw imm2 tag for an atom.
pub const TAG_IMM2_ATOM: Word = 0;

/// Raw imm2 tag for a catch marker.
pub const TAG_IMM2_CATCH: Word = 1;

/// Raw imm2 tag delegating classification to a deeper imm3 level.
pub const TAG_IMM2_IMM3: Word = 2;

/// Raw imm2 tag for the special singleton constants such as NIL and NONVALUE.
pub const TAG_IMM2_SPECIAL: Word = 3;

/// Max raw value of an imm2 tag: the enumeration is closed.
pub const IMMEDIATE2_MAX: Word = 3;

/// Payloads of the special constants, pre-shifted so that the 4 bits of
/// repeating pattern line up with the 4-bit shift and read the same in hex.
pub const TAG_IMM2_SPECIAL_NIL: Word = 0x0101_0101 << 4;

/// Payload of the NONVALUE special constant.
pub const TAG_IMM2_SPECIAL_NONVALUE: Word = 0x0303_0303 << 4;

/// Payload of the empty-tuple special constant.
pub const TAG_IMM2_SPECIAL_EMPTY_TUPLE: Word = 0x0505_0505 << 4;

/// Payload of the empty-binary special constant.
pub const TAG_IMM2_SPECIAL_EMPTY_BIN: Word = 0x0707_0707 << 4;

/// Precomposed prefix bits for immediate-2 values.
pub const IMM2_PREFIX: Word = IMM1_PREFIX | (TAG_IMM1_IMM2 << IMM1_TAG_FIRST);

/// Precomposed prefix bits for an atom imm2.
pub const IMM2_ATOM_PREFIX: Word = IMM2_PREFIX | (TAG_IMM2_ATOM << IMM2_TAG_FIRST);

/// Precomposed prefix bits for a catch-marker imm2.
pub const IMM2_CATCH_PREFIX: Word = IMM2_PREFIX | (TAG_IMM2_CATCH << IMM2_TAG_FIRST);

/// Special primary + imm1 + imm2 prefix bits precomposed.
pub const IMM2_SPECIAL_PREFIX: Word = IMM2_PREFIX | (TAG_IMM2_SPECIAL << IMM2_TAG_FIRST);

/// Precomposed bits for the NIL constant.
pub const IMM2_SPECIAL_NIL_RAW: Word = IMM2_SPECIAL_PREFIX
    | (TAG_IMM2_SPECIAL_NIL << IMM2_VALUE_FIRST);

/// Precomposed bits for the NONVALUE constant.
pub const IMM2_SPECIAL_NONVALUE_RAW: Word = IMM2_SPECIAL_PREFIX
    | (TAG_IMM2_SPECIAL_NONVALUE << IMM2_VALUE_FIRST);

/// Precomposed bits for the empty-tuple constant.
pub const IMM2_SPECIAL_EMPTY_TUPLE_RAW: Word = IMM2_SPECIAL_PREFIX
    | (TAG_IMM2_SPECIAL_EMPTY_TUPLE << IMM2_VALUE_FIRST);

/// Precomposed bits for the empty-binary constant.
pub const IMM2_SPECIAL_EMPTY_BIN_RAW: Word = IMM2_SPECIAL_PREFIX
    | (TAG_IMM2_SPECIAL_EMPTY_BIN << IMM2_VALUE_FIRST);

/// The precomposed imm2 prefixes and special constants written out as plain
/// numbers, so that proofs over concrete words can use them directly.
pub proof fn lemma_imm2_prefix_values()
    ensures
        IMM2_PREFIX == 0xB,
        IMM2_ATOM_PREFIX == 0xB,
        IMM2_CATCH_PREFIX == 0x1B,
        IMM2_SPECIAL_PREFIX == 0x3B,
        IMM2_SPECIAL_NIL_RAW == 0x4_0404_043B,
        IMM2_SPECIAL_NONVALUE_RAW == 0xC_0C0C_0C3B,
        IMM2_SPECIAL_EMPTY_TUPLE_RAW == 0x14_1414_143B,
        IMM2_SPECIAL_EMPTY_BIN_RAW == 0x1C_1C1C_1C3B,
        IMM2_ATOM_PREFIX < 64,
        IMM2_CATCH_PREFIX < 64,
        IMM2_SPECIAL_PREFIX < 64,
        TAG_IMM2_SPECIAL_NIL == 0x1010_1010,
        TAG_IMM2_SPECIAL_NONVALUE == 0x3030_3030,
        TAG_IMM2_SPECIAL_EMPTY_TUPLE == 0x5050_5050,
        TAG_IMM2_SPECIAL_EMPTY_BIN == 0x7070_7070,
{
    assert(0x0101_0101u64 << 4 == 0x1010_1010 && 0x0303_0303u64 << 4 == 0x3030_3030
        && 0x0505_0505u64 << 4 == 0x5050_5050 && 0x0707_0707u64 << 4 == 0x7070_7070)
        by (bit_vector);
    assert(3u64 | (2u64 << 2) == 0xB) by (bit_vector);
    assert(0xBu64 | (0u64 << 4) == 0xB && 0xBu64 | (1u64 << 4) == 0x1B && 0xBu64 | (3u64 << 4)
        == 0x3B && 0x3Bu64 < 64) by (bit_vector);
    assert(0x3Bu64 | ((0x0101_0101u64 << 4) << 6) == 0x4_0404_043B) by (bit_vector);
    assert(0x3Bu64 | ((0x0303_0303u64 << 4) << 6) == 0xC_0C0C_0C3B) by (bit_vector);
    assert(0x3Bu64 | ((0x0505_0505u64 << 4) << 6) == 0x14_1414_143B) by (bit_vector);
    assert(0x3Bu64 | ((0x0707_0707u64 << 4) << 6) == 0x1C_1C1C_1C3B) by (bit_vector);
}

/// Raw imm2 tag bits of a word.
pub open spec fn spec_imm2_tag(w: Word) -> Word {
    (w >> 4) & 3
}

/// Payload bits of an imm2 word, above all three tag levels.
pub open spec fn spec_imm2_value(w: Word) -> Word {
    w >> 6
}

/// All prefix bits below the imm2 tag: primary tag plus imm1 tag.
pub open spec fn spec_imm2_prefix(w: Word) -> Word {
    w & 0xF
}

/// All prefix bits below the imm2 payload, the imm2 tag included.
pub open spec fn spec_imm2_prefix_and_tag(w: Word) -> Word {
    w & 0x3F
}

/// Composition of an imm2 word from its prefix bits and payload.
pub open spec fn spec_imm2_combine(value: Word, prefix: Word) -> Word {
    prefix | (value << 6)
}

/// Trim to have only the immediate-2 tag bits; the result always lies within
/// the closed enumeration.
pub fn get_imm2_tag(val: Word) -> (t: Word)
    ensures
        t == spec_imm2_tag(val),
        t <= IMMEDIATE2_MAX,
{
    proof {
        assert((val >> 4) & 3 <= 3) by (bit_vector);
    }
    (val >> 4u64) & 3
}

/// Remove tag bits from an imm2 value by shifting it right.
pub fn get_imm2_value(val: Word) -> (r: Word)
    requires
        spec_imm2_prefix(val) == IMM2_PREFIX,
    ensures
        r == spec_imm2_value(val),
{
    val >> 6u64
}

/// Get the prefix bits BEFORE the imm2 tag.
pub fn get_imm2_prefix(val: Word) -> (r: Word)
    ensures
        r == spec_imm2_prefix(val),
{
    val & 0xF
}

/// Get the prefix bits BEFORE the imm2 tag plus the tag itself, for raw
/// comparisons.
pub fn get_imm2_prefix_and_tag(val: Word) -> (r: Word)
    ensures
        r == spec_imm2_prefix_and_tag(val),
{
    val & 0x3F
}

/// True when the word carries the immediate primary tag and the imm2 imm1 tag.
pub fn is_immediate2(val: Word) -> (r: bool)
    ensures
        r == (spec_imm2_prefix(val) == IMM2_PREFIX),
{
    get_imm2_prefix(val) == IMM2_PREFIX
}

/// Given a payload and raw preset prefix bits, compose them into an imm2 word.
/// The prefix must sit strictly below the payload's first bit and the payload
/// must fit in the 58 bits above it; decomposition recovers both exactly.
pub fn combine_imm2_prefix_and_val(val: Word, prefix0: Word) -> (r: Word)
    requires
        prefix0 < 64,
        val < 0x0400_0000_0000_0000,
    ensures
        r == spec_imm2_combine(val, prefix0),
        spec_imm2_prefix_and_tag(r) == prefix0,
        spec_imm2_value(r) == val,
{
    proof {
        assert((prefix0 | (val << 6)) & 0x3F == prefix0 && (prefix0 | (val << 6)) >> 6 == val)
            by (bit_vector)
            requires
                prefix0 < 64 && val < 0x0400_0000_0000_0000,
        ;
    }
    prefix0 | (val << 6u64)
}

/// Law (round trip): for every payload that fits and every prefix below the
/// payload's first bit, decomposing a composed imm2 word loses nothing: both
/// the prefix (tag bits included) and the payload come back exactly.
pub proof fn lemma_imm2_round_trip(val: Word, prefix: Word)
    requires
        prefix < 64,
        val < 0x0400_0000_0000_0000,
    ensures
        spec_imm2_prefix_and_tag(spec_imm2_combine(val, prefix)) == prefix,
        spec_imm2_value(spec_imm2_combine(val, prefix)) == val,
        spec_imm2_tag(spec_imm2_combine(val, prefix)) == (prefix >> 4) & 3,
{
    assert((prefix | (val << 6)) & 0x3F == prefix && (prefix | (val << 6)) >> 6 == val && ((prefix
        | (val << 6)) >> 4) & 3 == (prefix >> 4) & 3) by (bit_vector)
        requires
            prefix < 64 && val < 0x0400_0000_0000_0000,
    ;
}

/// Total composition: `Some` exactly when the payload fits the bit width that
/// remains above the given prefix, `None` when its magnitude exceeds it.
pub fn combine_imm2_checked(val: Word, prefix0: Word) -> (r: Option<Word>)
    requires
        prefix0 < 64,
    ensures
        r is Some <==> val < 0x0400_0000_0000_0000,
        r is Some ==> r == Some(spec_imm2_combine(val, prefix0)),
{
    if val < 0x0400_0000_0000_0000 {
        Some(combine_imm2_prefix_and_val(val, prefix0))
    } else {
        None
    }
}

/// Assertion-free composition for precomposing constants; a fitting payload
/// is the caller's obligation here, as everywhere composition is used, and
/// decomposition recovers both parts exactly.
pub fn combine_imm2_prefix_and_val_const(val: Word, prefix0: Word) -> (r: Word)
    requires
        prefix0 < 64,
        val < 0x0400_0000_0000_0000,
    ensures
        r == spec_imm2_combine(val, prefix0),
        spec_imm2_prefix_and_tag(r) == prefix0,
        spec_imm2_value(r) == val,
{
    proof {
        assert((prefix0 | (val << 6)) & 0x3F == prefix0 && (prefix0 | (val << 6)) >> 6 == val)
            by (bit_vector)
            requires
                prefix0 < 64 && val < 0x0400_0000_0000_0000,
        ;
    }
    prefix0 | (val << 6u64)
}

} // verus!
