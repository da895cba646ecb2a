//! Heap object which stores a byte binary. The byte storage manages its own
//! auxiliary memory, so the record occupies a fixed word count on the heap.

use vstd::prelude::*;
use vstd::string::StringExecFns;
use crate::rt_defs::Word;
use crate::decimal::spec_dec;
use crate::decimal::dec_str;
use crate::fail::Hopefully;
use crate::fail::RtErr;
use crate::term::lterm::LTerm;
use crate::term::lterm::make_box;
use crate::term::heapobj::HeapObj;
use crate::term::heapobj::HeapObjHeader;
use crate::term::heapobj::HeapObjType;
use crate::term::heapobj::class_of;
use crate::term::heapobj::get_class;
use crate::emulator::heap::Heap;

verus! {

/// Words one binary record occupies on the process heap: the header plus the
/// byte-storage record, whose bytes live in auxiliary memory.
pub const BINARY_WORDS: Word = 5;

/// Heap object `HOBinary` is placed on the heap by the VM and contains a
/// sequence of bytes.
#[derive(Debug, Clone)]
pub struct HOBinary {
    /// Header carrying the record's word count and its class descriptor.
    pub hobj: HeapObjHeader,
    /// The stored bytes. The byte storage manages its own auxiliary memory.
    pub data: Vec<u8>,
}

/// Textual form of a binary record: its byte length in decimal inside the
/// binary marker.
pub open spec fn spec_binary_fmt(b: HOBinary) -> Seq<char> {
    seq!['B', 'i', 'n', '('] + spec_dec(b.data@.len()) + seq![')']
}

/// The heap object that placing a byte sequence produces.
pub open spec fn spec_binary_obj(data: Vec<u8>) -> HeapObj {
    HeapObj::Binary(
        HOBinary {
            hobj: HeapObjHeader { n_words: BINARY_WORDS, class: class_of(HeapObjType::Binary) },
            data,
        },
    )
}

impl HOBinary {
    /// Words this kind occupies on the heap.
    pub fn storage_size() -> (r: Word)
        ensures
            r == BINARY_WORDS,
    {
        BINARY_WORDS
    }

    /// Build the record with its header filled in.
    fn new(n_words: Word, data: Vec<u8>) -> (r: HOBinary)
        ensures
            r.hobj.n_words == n_words,
            r.hobj.class == class_of(HeapObjType::Binary),
            r.data == data,
    {
        HOBinary { hobj: HeapObjHeader::new(n_words, get_class(HeapObjType::Binary)), data }
    }

    /// Destructor: releases the auxiliary byte storage. Invoked only by the
    /// owning heap's teardown through the class descriptor.
    pub fn dtor(&mut self)
        ensures
            final(self).hobj == old(self).hobj,
            final(self).data@.len() == 0,
    {
        self.data = Vec::new();
    }

    /// Format as a string: the byte length inside the binary marker.
    pub fn fmt_str(&self) -> (r: String)
        ensures
            r@ == spec_binary_fmt(*self),
    {
        let mut s = String::from_str("Bin(");
        let len64: u64 = self.data.len() as u64;
        let dec = dec_str(len64);
        s.append(dec.as_str());
        s.append(")");
        proof {
            reveal_strlit("Bin(");
            reveal_strlit(")");
            assert("Bin("@ =~= seq!['B', 'i', 'n', '(']);
            assert(")"@ =~= seq![')']);
            assert(s@ =~= spec_binary_fmt(*self));
        }
        s
    }

    /// Allocate space on the heap for the record and initialize its fields.
    /// Fails exactly when the arena cannot satisfy the request, leaving the
    /// heap unchanged.
    pub fn place_into(hp: &mut Heap, data: Vec<u8>) -> (r: Hopefully<usize>)
        requires
            old(hp).wf(),
        ensures
            final(hp).wf(),
            final(hp).capacity == old(hp).capacity,
            match r {
                Ok(idx) => idx == old(hp).objects@.len() && final(hp).objects@ == old(
                    hp,
                ).objects@.push(spec_binary_obj(data)) && final(hp).used == old(hp).used
                    + BINARY_WORDS && old(hp).used + BINARY_WORDS <= old(hp).capacity,
                Err(e) => e == RtErr::HeapIsFull && *final(hp) == *old(hp) && old(hp).used
                    + BINARY_WORDS > old(hp).capacity,
            },
    {
        let n_words = HOBinary::storage_size();
        let this = HOBinary::new(n_words, data);
        hp.place(HeapObj::Binary(this))
    }

    /// Given a term, unbox it and locate the binary it references. The word
    /// must be a boxed reference into this heap; the downcast succeeds exactly
    /// when the referenced object's class descriptor is the binary class.
    pub fn from_term(hp: &Heap, t: LTerm) -> (r: Hopefully<usize>)
        requires
            hp.wf(),
            t.spec_is_boxed(),
            t.spec_box_index() < hp.objects@.len(),
        ensures
            match r {
                Ok(idx) => idx == t.spec_box_index() && hp.objects@[idx as int] is Binary,
                Err(e) => e == RtErr::HeapObjClassMismatch && !(hp.objects@[t.spec_box_index()
                    as int] is Binary),
            },
    {
        let idx64 = t.box_index();
        let len = hp.objects.len();
        proof {
            assert(idx64 < len as u64);
            assert(hp.objects@[idx64 as int].wf());
        }
        let idx = idx64 as usize;
        let obj = hp.obj_at(idx);
        let hdr = obj.header();
        if hdr.class == get_class(HeapObjType::Binary) {
            Ok(idx)
        } else {
            Err(RtErr::HeapObjClassMismatch)
        }
    }

    /// Compose a boxed term wrapping a binary record's heap location; total
    /// for every location the heap can hold.
    pub fn make_term(idx: usize) -> (r: LTerm)
        requires
            (idx as u64) < 0x4000_0000_0000_0000,
        ensures
            r.spec_is_boxed(),
            r.spec_box_index() == idx as u64,
    {
        make_box(idx as u64)
    }
}

} // verus!
