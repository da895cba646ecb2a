//! The heap object system: a closed set of heap-resident object kinds, each
//! prefixed by a header that names its word count and its class descriptor.
//! Generic code dispatches through the descriptor (formatter, destructor,
//! coarse term class) without static knowledge of the concrete kind; typed
//! code recovers the kind safely by validating the descriptor.

use vstd::prelude::*;
use crate::rt_defs::Word;
use crate::term::classify::TermClass;
use crate::term::ho_bignum::BIGNUM_WORDS;
use crate::term::ho_bignum::HOBignum;
use crate::term::ho_bignum::spec_bignum_fmt;
use crate::term::ho_binary::BINARY_WORDS;
use crate::term::ho_binary::HOBinary;
use crate::term::ho_binary::spec_binary_fmt;

verus! {

/// The closed enumeration of heap object kinds.
#[derive(Debug, Copy, Clone, PartialEq, Eq, Structural)]
pub enum HeapObjType {
    Bignum,
    Binary,
}

/// Per-kind class descriptor: the kind tag and the coarse term category that
/// generic classification queries read. Dispatch to the kind's destructor and
/// formatter goes through the kind tag.
#[derive(Debug, Copy, Clone, PartialEq, Eq, Structural)]
pub struct HeapObjClass {
    pub obj_type: HeapObjType,
    pub term_class: TermClass,
}

/// The one class descriptor registered for each kind.
pub open spec fn class_of(t: HeapObjType) -> HeapObjClass {
    match t {
        HeapObjType::Bignum => HeapObjClass {
            obj_type: HeapObjType::Bignum,
            term_class: TermClass::Number,
        },
        HeapObjType::Binary => HeapObjClass {
            obj_type: HeapObjType::Binary,
            term_class: TermClass::Binary,
        },
    }
}

/// Look up a kind's class descriptor.
pub fn get_class(t: HeapObjType) -> (c: HeapObjClass)
    ensures
        c == class_of(t),
{
    match t {
        HeapObjType::Bignum => HeapObjClass {
            obj_type: HeapObjType::Bignum,
            term_class: TermClass::Number,
        },
        HeapObjType::Binary => HeapObjClass {
            obj_type: HeapObjType::Binary,
            term_class: TermClass::Binary,
        },
    }
}

/// Words a record of the given kind occupies on the heap; the digit or byte
/// payloads manage their own auxiliary storage, so each kind's record is a
/// fixed number of words.
pub open spec fn spec_storage_size(t: HeapObjType) -> Word {
    match t {
        HeapObjType::Bignum => BIGNUM_WORDS,
        HeapObjType::Binary => BINARY_WORDS,
    }
}

/// Header prefixed to every heap-resident object: its size in words and its
/// class descriptor. The arena and the collector use the size to skip over
/// objects without knowing the concrete kind, so it must equal the storage the
/// kind occupies.
#[derive(Debug, Copy, Clone, PartialEq, Eq, Structural)]
pub struct HeapObjHeader {
    pub n_words: Word,
    pub class: HeapObjClass,
}

impl HeapObjHeader {
    /// Build a header for an object of the given size and class.
    pub fn new(n_words: Word, class: HeapObjClass) -> (h: HeapObjHeader)
        ensures
            h.n_words == n_words,
            h.class == class,
    {
        HeapObjHeader { n_words, class }
    }
}

/// A heap-resident object: one of the closed set of kinds, each carrying its
/// own header.
#[derive(Debug, Clone)]
pub enum HeapObj {
    Bignum(HOBignum),
    Binary(HOBinary),
}

impl HeapObj {
    /// The header any generic reader finds in front of the object.
    pub open spec fn spec_header(self) -> HeapObjHeader {
        match self {
            HeapObj::Bignum(b) => b.hobj,
            HeapObj::Binary(b) => b.hobj,
        }
    }

    /// The kind this object actually is.
    pub open spec fn spec_obj_type(self) -> HeapObjType {
        match self {
            HeapObj::Bignum(_) => HeapObjType::Bignum,
            HeapObj::Binary(_) => HeapObjType::Binary,
        }
    }

    /// Header consistency: the header's class descriptor is the one registered
    /// for the object's kind and its declared size is the storage the kind
    /// occupies.
    pub open spec fn wf(self) -> bool {
        self.spec_header().class == class_of(self.spec_obj_type()) && self.spec_header().n_words
            == spec_storage_size(self.spec_obj_type())
    }

    /// Read the header without knowing the concrete kind.
    pub fn header(&self) -> (h: &HeapObjHeader)
        ensures
            *h == self.spec_header(),
    {
        match self {
            HeapObj::Bignum(b) => &b.hobj,
            HeapObj::Binary(b) => &b.hobj,
        }
    }

    /// The coarse term category, read through the class descriptor.
    pub fn term_class(&self) -> (c: TermClass)
        requires
            self.wf(),
        ensures
            c == class_of(self.spec_obj_type()).term_class,
    {
        self.header().class.term_class
    }

    /// The textual form any generic formatter obtains, dispatched through the
    /// object's kind.
    pub open spec fn spec_fmt(self) -> Seq<char> {
        match self {
            HeapObj::Bignum(b) => spec_bignum_fmt(b.value),
            HeapObj::Binary(b) => spec_binary_fmt(b),
        }
    }

    /// Format the object without static knowledge of its kind.
    pub fn fmt_str(&self) -> (r: String)
        ensures
            r@ == self.spec_fmt(),
    {
        match self {
            HeapObj::Bignum(b) => b.fmt_str(),
            HeapObj::Binary(b) => b.fmt_str(),
        }
    }

    /// Destroy the object's payload, dispatched to the concrete kind's
    /// destructor; only the owning heap's teardown calls this.
    pub fn dtor(&mut self)
        ensures
            final(self).spec_header() == old(self).spec_header(),
            final(self).spec_obj_type() == old(self).spec_obj_type(),
            match *final(self) {
                HeapObj::Bignum(b) => b.value.digits@.len() == 0 && !b.value.negative,
                HeapObj::Binary(b) => b.data@.len() == 0,
            },
    {
        match self {
            HeapObj::Bignum(b) => b.dtor(),
            HeapObj::Binary(b) => b.dtor(),
        }
    }
}

} // verus!
