//! The heap arena: a contiguous, process-owned allocation region measured in
//! words. Objects placed here are owned by the arena; none is reused or
//! released until a collection pass or the arena's own teardown.

use vstd::prelude::*;
use crate::rt_defs::Word;
use crate::fail::Hopefully;
use crate::fail::RtErr;
use crate::term::heapobj::HeapObj;

verus! {

/// Default word capacity given to a fresh process heap.
pub const DEFAULT_PROC_HEAP: Word = 256;

/// Words occupied by a sequence of heap objects, as their headers declare.
pub open spec fn total_words(s: Seq<HeapObj>) -> int
    decreases s.len(),
{
    if s.len() == 0 {
        0
    } else {
        total_words(s.drop_last()) + s.last().spec_header().n_words
    }
}

/// Appending one object grows the occupied words by that object's size.
proof fn lemma_total_words_push(s: Seq<HeapObj>, o: HeapObj)
    ensures
        total_words(s.push(o)) == total_words(s) + o.spec_header().n_words,
{
    assert(s.push(o).drop_last() =~= s);
}

/// A process-owned heap arena: a word capacity, the words already occupied,
/// and the objects resident in the region.
#[derive(Debug)]
pub struct Heap {
    pub capacity: Word,
    pub used: Word,
    pub objects: Vec<HeapObj>,
}

impl Heap {
    /// Arena consistency: the occupied count never exceeds the capacity, it
    /// equals exactly what the resident objects' headers declare, and every
    /// resident object's header is consistent with its kind.
    pub open spec fn wf(self) -> bool {
        self.used <= self.capacity && self.used == total_words(self.objects@) && forall|i: int|
            0 <= i < self.objects@.len() ==> (#[trigger] self.objects@[i]).wf()
    }

    /// A fresh, empty arena of the given word capacity.
    pub fn new(capacity: Word) -> (r: Heap)
        ensures
            r.wf(),
            r.capacity == capacity,
            r.used == 0,
            r.objects@.len() == 0,
    {
        Heap { capacity, used: 0, objects: Vec::new() }
    }

    /// Place one well-formed object into the arena, occupying the words its
    /// header declares. Fails with the out-of-memory condition exactly when
    /// the region cannot satisfy the request, leaving the arena unchanged; the
    /// caller must then trigger a collection cycle or raise an out-of-memory
    /// exception.
    pub fn place(&mut self, obj: HeapObj) -> (r: Hopefully<usize>)
        requires
            old(self).wf(),
            obj.wf(),
        ensures
            final(self).wf(),
            final(self).capacity == old(self).capacity,
            match r {
                Ok(idx) => idx == old(self).objects@.len() && final(self).objects@ == old(
                    self,
                ).objects@.push(obj) && final(self).used == old(self).used
                    + obj.spec_header().n_words && old(self).used + obj.spec_header().n_words
                    <= old(self).capacity,
                Err(e) => e == RtErr::HeapIsFull && *final(self) == *old(self) && old(self).used
                    + obj.spec_header().n_words > old(self).capacity,
            },
    {
        let n = obj.header().n_words;
        if n <= self.capacity - self.used {
            let idx = self.objects.len();
            proof {
                lemma_total_words_push(self.objects@, obj);
            }
            self.used = self.used + n;
            self.objects.push(obj);
            Ok(idx)
        } else {
            Err(RtErr::HeapIsFull)
        }
    }

    /// Read the object resident at a location.
    pub fn obj_at(&self, idx: usize) -> (r: &HeapObj)
        requires
            idx < self.objects@.len(),
        ensures
            *r == self.objects@[idx as int],
    {
        &self.objects[idx]
    }

    /// Tear the arena down: every resident object's payload is released
    /// through its class descriptor's destructor, and the region is empty
    /// afterwards. Individual objects are never destroyed outside this path.
    pub fn teardown(&mut self)
        requires
            old(self).wf(),
        ensures
            final(self).wf(),
            final(self).capacity == old(self).capacity,
            final(self).used == 0,
            final(self).objects@.len() == 0,
    {
        while self.objects.len() > 0
            invariant
                self.capacity == old(self).capacity,
            decreases self.objects@.len(),
        {
            let last = self.objects.pop();
            match last {
                Some(mut o) => {
                    o.dtor();
                },
                None => {},
            }
        }
        self.used = 0;
    }
}

} // verus!
