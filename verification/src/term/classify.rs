//! Generic term classification: reading the whole tag hierarchy of a word at
//! once, and the coarse term categories used by heap object descriptors.

use vstd::prelude::*;
use crate::rt_defs::Word;
use crate::term::primary::PrimaryTag;
use crate::term::primary::TAG_PRIMARY_IMMED;
use crate::term::primary::primary_tag_value;
use crate::term::primary::spec_primary_tag;
use crate::term::primary::get_primary_tag;
use crate::term::imm1::Immediate1;
use crate::term::imm1::imm1_tag_value;
use crate::term::imm1::spec_imm1_tag;
use crate::term::imm1::get_imm1_tag;
use crate::term::imm2::IMM2_PREFIX;
use crate::term::imm2::IMMEDIATE2_MAX;
use crate::term::imm2::spec_imm2_tag;
use crate::term::imm2::spec_imm2_prefix;
use crate::term::imm2::get_imm2_tag;
use crate::term::imm2::is_immediate2;

verus! {

/// Coarse term category attached to each heap object kind's class descriptor,
/// consumed by generic classification queries that know no concrete kind.
#[derive(Debug, Copy, Clone, PartialEq, Eq, Structural)]
pub enum TermClass {
    Number,
    Binary,
}

/// The full tag reading of one word: the primary tag always, the nested tags
/// exactly where the outer level delegates to them.
#[derive(Debug, Copy, Clone, PartialEq, Eq, Structural)]
pub struct Classification {
    pub primary: PrimaryTag,
    pub imm1: Option<Immediate1>,
    pub imm2: Option<Word>,
}

/// Read every tag level of a word. Each level is decoded only when the level
/// above it delegates there, and each decoded tag lies within that level's
/// closed enumeration.
pub fn classify(w: Word) -> (c: Classification)
    ensures
        primary_tag_value(c.primary) == spec_primary_tag(w),
        c.imm1 is Some <==> spec_primary_tag(w) == TAG_PRIMARY_IMMED,
        c.imm1 is Some ==> imm1_tag_value(c.imm1->Some_0) == spec_imm1_tag(w),
        c.imm2 is Some <==> spec_imm2_prefix(w) == IMM2_PREFIX,
        c.imm2 is Some ==> c.imm2->Some_0 == spec_imm2_tag(w) && c.imm2->Some_0
            <= IMMEDIATE2_MAX,
{
    let primary = get_primary_tag(w);
    let bits: Word = w & 3;
    let imm1 = if bits == TAG_PRIMARY_IMMED {
        Some(get_imm1_tag(w))
    } else {
        None
    };
    let imm2 = if is_immediate2(w) {
        Some(get_imm2_tag(w))
    } else {
        None
    };
    Classification { primary, imm1, imm2 }
}

/// Law (classification closure): whatever word is inspected, every tag field
/// that decomposition can extract lies within its level's closed enumeration.
pub proof fn lemma_classification_closure(w: Word)
    ensures
        spec_primary_tag(w) <= 3,
        spec_imm1_tag(w) <= 3,
        spec_imm2_tag(w) <= 3,
{
    assert(w & 3 <= 3 && (w >> 2) & 3 <= 3 && (w >> 4) & 3 <= 3) by (bit_vector);
}

} // verus!
