//! A write batch: a client-side accumulator of pending `(key, value)` pairs
//! that a single engine call later applies atomically.

use vstd::prelude::*;
use vstd::slice::slice_to_vec;

use crate::bytes::bytes_eq;
use crate::model::{last_put, lemma_last_put_take_step};

verus! {

/// An accumulator of pending writes, backed by a native batch handle that
/// is allocated lazily on the first `put` and released on `destroy`.
///
/// The pending entries keep their insertion order; a flush applies them in
/// that order, so for a key that is put twice the later value wins.
pub struct WriteBatch {
    entries: Vec<(Vec<u8>, Vec<u8>)>,
    allocated_: bool,
}

impl WriteBatch {
    /// The pending entries, in insertion order.
    pub closed spec fn pending(&self) -> Seq<(Seq<u8>, Seq<u8>)> {
        self.entries@.map_values(|e: (Vec<u8>, Vec<u8>)| (e.0@, e.1@))
    }

    /// Whether the native batch handle is currently allocated.
    pub closed spec fn spec_allocated(&self) -> bool {
        self.allocated_
    }

    /// A batch that never allocated its handle has nothing pending.
    pub open spec fn wf(&self) -> bool {
        !self.spec_allocated() ==> self.pending().len() == 0
    }

    /// Whether the native batch handle is currently allocated.
    #[verifier::when_used_as_spec(spec_allocated)]
    pub fn is_allocated(&self) -> (r: bool)
        ensures
            r == self.spec_allocated(),
    {
        self.allocated_
    }

    /// Creates an empty batch; no native handle is allocated yet.
    pub fn new() -> (r: WriteBatch)
        ensures
            r.wf(),
            !r.is_allocated(),
            r.pending() == Seq::<(Seq<u8>, Seq<u8>)>::empty(),
    {
        let batch = WriteBatch { entries: Vec::new(), allocated_: false };
        proof {
            assert(batch.pending() =~= Seq::<(Seq<u8>, Seq<u8>)>::empty());
        }
        batch
    }

    /// Allocates the native handle ahead of the first `put`.
    ///
    /// Misuse to call on a batch whose handle is already allocated.
    pub fn init(&mut self)
        requires
            !old(self).is_allocated(),
        ensures
            final(self).wf(),
            final(self).is_allocated(),
            final(self).pending() == old(self).pending(),
    {
        self.allocated_ = true;
    }

    /// Appends `(key, value)` to the pending entries. Both byte sequences
    /// may be empty; both are copied, so the caller's buffers are free for
    /// reuse as soon as the call returns. Allocates the native handle if
    /// this is the first `put`.
    pub fn put(&mut self, key: &[u8], value: &[u8])
        ensures
            final(self).wf(),
            final(self).is_allocated(),
            final(self).pending() == old(self).pending().push((key@, value@)),
    {
        if !self.allocated_ {
            self.allocated_ = true;
        }
        let pair = (slice_to_vec(key), slice_to_vec(value));
        self.entries.push(pair);
        proof {
            assert(self.pending() =~= old(self).pending().push((key@, value@)));
        }
    }

    /// Drops every pending entry. The native handle, once allocated, is
    /// kept alive for reuse; on a batch that never allocated one this does
    /// nothing.
    pub fn clear(&mut self)
        ensures
            final(self).wf(),
            final(self).is_allocated() == old(self).is_allocated(),
            final(self).pending() == Seq::<(Seq<u8>, Seq<u8>)>::empty(),
    {
        self.entries.clear();
        proof {
            assert(self.pending() =~= Seq::<(Seq<u8>, Seq<u8>)>::empty());
        }
    }

    /// Releases the native handle if one is held and resets the batch to
    /// its initial state. Safe to repeat: a second call is a no-op.
    pub fn destroy(&mut self)
        ensures
            final(self).wf(),
            !final(self).is_allocated(),
            final(self).pending() == Seq::<(Seq<u8>, Seq<u8>)>::empty(),
    {
        self.entries.clear();
        self.allocated_ = false;
        proof {
            assert(self.pending() =~= Seq::<(Seq<u8>, Seq<u8>)>::empty());
        }
    }

    /// How many entries are pending.
    pub fn len(&self) -> (r: usize)
        ensures
            r == self.pending().len(),
    {
        self.entries.len()
    }

    /// The key of the pending entry at position `i`.
    pub fn key_at(&self, i: usize) -> (r: &Vec<u8>)
        requires
            i < self.pending().len(),
        ensures
            r@ == self.pending()[i as int].0,
    {
        &self.entries[i].0
    }

    /// The value of the pending entry at position `i`.
    pub fn value_at(&self, i: usize) -> (r: &Vec<u8>)
        requires
            i < self.pending().len(),
        ensures
            r@ == self.pending()[i as int].1,
    {
        &self.entries[i].1
    }

    /// The value this batch would leave under `key` if it were flushed now:
    /// the value of the last pending entry for `key`, or `None` when no
    /// pending entry has that key.
    pub fn pending_value_of(&self, key: &[u8]) -> (r: Option<Vec<u8>>)
        ensures
            match r {
                Some(v) => last_put(self.pending(), key@) == Some(v@),
                None => last_put(self.pending(), key@) is None,
            },
    {
        let n = self.entries.len();
        let mut i: usize = n;
        proof {
            assert(self.pending().take(n as int) =~= self.pending());
        }
        while i > 0
            invariant
                i <= n,
                n == self.pending().len(),
                n == self.entries.len(),
                last_put(self.pending(), key@) == last_put(self.pending().take(i as int), key@),
            decreases i,
        {
            i = i - 1;
            proof {
                lemma_last_put_take_step(self.pending(), key@, i as int);
            }
            if bytes_eq(self.entries[i].0.as_slice(), key) {
                let value = slice_to_vec(self.entries[i].1.as_slice());
                return Some(value);
            }
        }
        proof {
            assert(self.pending().take(0) =~= Seq::<(Seq<u8>, Seq<u8>)>::empty());
        }
        None
    }
}

} // verus!
