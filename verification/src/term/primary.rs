//! Primary tag: the lowest two bits of every word, distinguishing headers,
//! cons cells, boxed heap references and immediate values.

use vstd::prelude::*;
use crate::rt_defs::Word;

verus! {

/// Number of low bits holding the primary tag.
pub const PRIMARY_TAG_BITS: Word = 2;

/// First bit of the payload that follows the primary tag.
pub const PRIMARY_VALUE_FIRST: Word = 2;

/// Raw primary tag denoting a heap object header word.
pub const TAG_PRIMARY_HEADER: Word = 0;

/// Raw primary tag denoting a cons cell pointer.
pub const TAG_PRIMARY_CONS: Word = 1;

/// Raw primary tag denoting a boxed heap reference.
pub const TAG_PRIMARY_BOX: Word = 2;

/// Raw primary tag denoting an immediate value.
pub const TAG_PRIMARY_IMMED: Word = 3;

/// Largest raw primary tag value: the enumeration is closed.
pub const PRIMARY_MAX: Word = 3;

/// The closed enumeration of primary tags.
#[derive(Debug, Copy, Clone, PartialEq, Eq, Structural)]
pub enum PrimaryTag {
    Header,
    Cons,
    Boxed,
    Immediate,
}

/// The raw tag bits that each `PrimaryTag` stands for.
pub open spec fn primary_tag_value(t: PrimaryTag) -> Word {
    match t {
        PrimaryTag::Header => TAG_PRIMARY_HEADER,
        PrimaryTag::Cons => TAG_PRIMARY_CONS,
        PrimaryTag::Boxed => TAG_PRIMARY_BOX,
        PrimaryTag::Immediate => TAG_PRIMARY_IMMED,
    }
}

/// Primary tag bits of a word.
pub open spec fn spec_primary_tag(w: Word) -> Word {
    w & 3
}

/// Payload bits of a word, above the primary tag.
pub open spec fn spec_primary_value(w: Word) -> Word {
    w >> 2
}

/// Decode the primary tag of any word into the closed enumeration.
pub fn get_primary_tag(w: Word) -> (t: PrimaryTag)
    ensures
        primary_tag_value(t) == spec_primary_tag(w),
{
    let bits: Word = w & 3;
    proof {
        assert(w & 3 <= 3) by (bit_vector);
    }
    if bits == 0 {
        PrimaryTag::Header
    } else if bits == 1 {
        PrimaryTag::Cons
    } else if bits == 2 {
        PrimaryTag::Boxed
    } else {
        PrimaryTag::Immediate
    }
}

/// Strip the primary tag, returning the payload bits.
pub fn primary_value(w: Word) -> (v: Word)
    ensures
        v == spec_primary_value(w),
{
    w >> 2u64
}

/// Compose a word from raw primary tag bits and a payload that fits above them.
pub fn primary_compose(tag: Word, value: Word) -> (w: Word)
    requires
        tag <= PRIMARY_MAX,
        value < 0x4000_0000_0000_0000,
    ensures
        w == tag | (value << 2),
        spec_primary_tag(w) == tag,
        spec_primary_value(w) == value,
{
    proof {
        assert((tag | (value << 2)) & 3 == tag && (tag | (value << 2)) >> 2 == value)
            by (bit_vector)
            requires
                tag <= 3 && value < 0x4000_0000_0000_0000,
        ;
    }
    tag | (value << 2u64)
}

} // verus!
