//! Immediate-1 values: the first nested tag level inside an immediate word.
//! Bit composition is `.... .... .... aaPP`, where `PP` is the primary tag and
//! `aa` is the imm1 tag; the payload occupies the remaining 60 high bits.

use vstd::prelude::*;
use crate::rt_defs::Word;
use crate::rt_defs::WORD_BITS;
use crate::term::primary::TAG_PRIMARY_IMMED;
use crate::term::primary::spec_primary_tag;

verus! {

/// Bit position where the imm1 tag begins.
pub const IMM1_TAG_FIRST: Word = 2;

/// Bit position just past the imm1 tag.
pub const IMM1_TAG_LAST: Word = 4;

/// Bit position where the imm1 payload begins.
pub const IMM1_VALUE_FIRST: Word = IMM1_TAG_LAST;

/// Bit position just past the imm1 payload.
pub const IMM1_VALUE_LAST: Word = WORD_BITS;

/// The closed enumeration of imm1 tags.
#[derive(Debug, Copy, Clone, PartialEq, Eq, Structural)]
pub enum Immediate1 {
    Pid,
    Port,
    Immed2,
    Small,
}

/// Max raw value of an imm1 tag: the enumeration is closed.
pub const IMMEDIATE1_MAX: Word = 3;

/// Raw imm1 tag for a local process identifier.
pub const TAG_IMM1_PID: Word = 0;

/// Raw imm1 tag for a port identifier.
pub const TAG_IMM1_PORT: Word = 1;

/// Raw imm1 tag delegating classification to the imm2 level.
pub const TAG_IMM1_IMM2: Word = 2;

/// Raw imm1 tag for a small integer.
pub const TAG_IMM1_SMALL: Word = 3;

/// The raw tag bits that each `Immediate1` stands for.
pub open spec fn imm1_tag_value(t: Immediate1) -> Word {
    match t {
        Immediate1::Pid => TAG_IMM1_PID,
        Immediate1::Port => TAG_IMM1_PORT,
        Immediate1::Immed2 => TAG_IMM1_IMM2,
        Immediate1::Small => TAG_IMM1_SMALL,
    }
}

/// Special prefix {primary = Immediate} precomposed.
pub const IMM1_PREFIX: Word = TAG_PRIMARY_IMMED;

/// Precomposed prefix bits for a pid imm1.
pub const IMM1_PID_PREFIX: Word = IMM1_PREFIX | (TAG_IMM1_PID << 2);

/// Precomposed prefix bits for a port imm1.
pub const IMM1_PORT_PREFIX: Word = IMM1_PREFIX | (TAG_IMM1_PORT << 2);

/// Precomposed prefix bits for a small integer imm1.
pub const IMM1_SMALL_PREFIX: Word = IMM1_PREFIX | (TAG_IMM1_SMALL << 2);

/// The precomposed imm1 prefixes written out as plain numbers, so that proofs
/// over concrete words can use them directly.
pub proof fn lemma_imm1_prefix_values()
    ensures
        IMM1_PREFIX == 3,
        IMM1_PID_PREFIX == 3,
        IMM1_PORT_PREFIX == 7,
        IMM1_SMALL_PREFIX == 0xF,
        IMM1_PID_PREFIX < 16,
        IMM1_PORT_PREFIX < 16,
        IMM1_SMALL_PREFIX < 16,
{
    assert(3u64 | (0u64 << 2) == 3 && 3u64 | (1u64 << 2) == 7 && 3u64 | (3u64 << 2) == 0xF
        && 0xFu64 < 16) by (bit_vector);
}

/// All prefix bits below the imm1 payload: primary tag plus imm1 tag.
pub open spec fn spec_imm1_prefix(w: Word) -> Word {
    w & 0xF
}

/// Raw imm1 tag bits of a word.
pub open spec fn spec_imm1_tag(w: Word) -> Word {
    (w >> 2) & 3
}

/// Payload bits of an imm1 word, above both tag levels.
pub open spec fn spec_imm1_value(w: Word) -> Word {
    w >> 4
}

/// Composition of an imm1 word from its prefix bits and payload.
pub open spec fn spec_imm1_combine(value: Word, prefix: Word) -> Word {
    prefix | (value << 4)
}

/// True when the word's primary tag marks an immediate value, whatever the
/// imm1 tag bits above it carry.
pub fn is_immediate1(val: Word) -> (r: bool)
    ensures
        r == (spec_primary_tag(val) == TAG_PRIMARY_IMMED),
{
    val & 3 == TAG_PRIMARY_IMMED
}

/// Cut away the value to be able to compare with raw prefixes.
pub fn get_imm1_prefix(val: Word) -> (r: Word)
    ensures
        r == spec_imm1_prefix(val),
{
    val & 0xF
}

/// Trim the immediate-1 tag bits and return them as a convenient enum.
pub fn get_imm1_tag(val: Word) -> (t: Immediate1)
    ensures
        imm1_tag_value(t) == spec_imm1_tag(val),
{
    let bits: Word = (val >> 2u64) & 3;
    proof {
        assert((val >> 2) & 3 <= 3) by (bit_vector);
    }
    if bits == 0 {
        Immediate1::Pid
    } else if bits == 1 {
        Immediate1::Port
    } else if bits == 2 {
        Immediate1::Immed2
    } else {
        Immediate1::Small
    }
}

/// Remove tag bits from an imm1 value by shifting it right; defined on any
/// word whose primary tag marks an immediate.
pub fn imm1_value(val: Word) -> (r: Word)
    requires
        spec_primary_tag(val) == TAG_PRIMARY_IMMED,
    ensures
        r == spec_imm1_value(val),
{
    val >> 4u64
}

/// Given a payload and raw preset prefix bits, compose them into an imm1 word.
/// The prefix must sit strictly below the payload's first bit and the payload
/// must fit in the 60 bits above it; decomposition recovers both exactly.
pub fn combine_imm1_prefix_and_val(val: Word, prefix0: Word) -> (r: Word)
    requires
        prefix0 < 16,
        val < 0x1000_0000_0000_0000,
    ensures
        r == spec_imm1_combine(val, prefix0),
        spec_imm1_prefix(r) == prefix0,
        spec_imm1_value(r) == val,
{
    proof {
        assert((prefix0 | (val << 4)) & 0xF == prefix0 && (prefix0 | (val << 4)) >> 4 == val)
            by (bit_vector)
            requires
                prefix0 < 16 && val < 0x1000_0000_0000_0000,
        ;
    }
    prefix0 | (val << 4u64)
}

/// Law (round trip): for every payload that fits and every prefix below the
/// payload's first bit, decomposing a composed imm1 word loses nothing: both
/// the prefix (tag bits included) and the payload come back exactly.
pub proof fn lemma_imm1_round_trip(val: Word, prefix: Word)
    requires
        prefix < 16,
        val < 0x1000_0000_0000_0000,
    ensures
        spec_imm1_prefix(spec_imm1_combine(val, prefix)) == prefix,
        spec_imm1_value(spec_imm1_combine(val, prefix)) == val,
        spec_imm1_tag(spec_imm1_combine(val, prefix)) == (prefix >> 2) & 3,
{
    assert((prefix | (val << 4)) & 0xF == prefix && (prefix | (val << 4)) >> 4 == val && ((prefix
        | (val << 4)) >> 2) & 3 == (prefix >> 2) & 3) by (bit_vector)
        requires
            prefix < 16 && val < 0x1000_0000_0000_0000,
    ;
}

/// Total composition: `Some` exactly when the payload fits the bit width that
/// remains above the given prefix, `None` when its magnitude exceeds it.
pub fn combine_imm1_checked(val: Word, prefix0: Word) -> (r: Option<Word>)
    requires
        prefix0 < 16,
    ensures
        r is Some <==> val < 0x1000_0000_0000_0000,
        r is Some ==> r == Some(spec_imm1_combine(val, prefix0)),
{
    if val < 0x1000_0000_0000_0000 {
        Some(combine_imm1_prefix_and_val(val, prefix0))
    } else {
        None
    }
}

} // verus!
