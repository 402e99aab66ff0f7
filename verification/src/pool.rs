//! Fixed-capacity pool of reusable sample buffers.
//!
//! All buffers are allocated once, up front. A checkout hands a buffer out
//! by value; `check_in` returns it. The pool never allocates after
//! construction, and the number of outstanding checkouts can never exceed
//! the capacity it was built with.

use vstd::prelude::*;

verus! {

/// Reusable pre-allocated buffers of a fixed element type.
pub struct Pool<T> {
    /// Buffers not currently checked out.
    pub free: Vec<Vec<T>>,
    /// Number of buffers the pool was built with.
    pub capacity: usize,
    /// Length every buffer is reset to when checked out.
    pub buf_len: usize,
}

impl<T: Copy> Pool<T> {
    /// Number of buffers the pool was built with.
    pub open spec fn spec_capacity(self) -> nat {
        self.capacity as nat
    }

    /// Number of buffers currently available for checkout.
    pub open spec fn free_count(self) -> nat {
        self.free@.len()
    }

    /// Number of buffers currently checked out.
    pub open spec fn outstanding(self) -> int {
        self.spec_capacity() - self.free_count()
    }

    /// Length each checked-out buffer is guaranteed to have.
    pub open spec fn spec_buf_len(self) -> nat {
        self.buf_len as nat
    }

    /// The free list never outgrows the capacity, and every free buffer
    /// keeps its full allocated length.
    pub open spec fn wf(self) -> bool {
        &&& self.free@.len() <= self.capacity
        &&& forall|i: int|
            0 <= i < self.free@.len() ==> (#[trigger] self.free@[i])@.len() == self.buf_len
    }

    /// Allocate a pool of `count` buffers, each of `buf_len` elements
    /// holding `fill`.
    pub fn with_capacity(count: usize, buf_len: usize, fill: T) -> (r: Pool<T>)
        ensures
            r.wf(),
            r.spec_capacity() == count,
            r.free_count() == count,
            r.outstanding() == 0,
            r.spec_buf_len() == buf_len,
    {
        let mut free: Vec<Vec<T>> = Vec::new();
        let mut i: usize = 0;
        while i < count
            invariant
                i <= count,
                free@.len() == i,
                forall|j: int| 0 <= j < i ==> (#[trigger] free@[j])@.len() == buf_len,
            decreases count - i,
        {
            let mut buf: Vec<T> = Vec::new();
            let mut k: usize = 0;
            while k < buf_len
                invariant
                    k <= buf_len,
                    buf@.len() == k,
                decreases buf_len - k,
            {
                buf.push(fill);
                k = k + 1;
            }
            free.push(buf);
            i = i + 1;
        }
        Pool { free, capacity: count, buf_len }
    }

    /// Check a buffer out of the pool.
    ///
    /// Returns a buffer exactly when one is free; the buffer always has the
    /// pool's full buffer length.
    pub fn checkout(&mut self) -> (r: Option<Vec<T>>)
        requires
            old(self).wf(),
        ensures
            final(self).wf(),
            final(self).spec_capacity() == old(self).spec_capacity(),
            final(self).spec_buf_len() == old(self).spec_buf_len(),
            r is Some <==> old(self).free_count() > 0,
            r is Some ==> {
                &&& final(self).free_count() == old(self).free_count() - 1
                &&& r->Some_0@.len() == old(self).spec_buf_len()
            },
            r is None ==> final(self).free@ == old(self).free@,
    {
        match self.free.pop() {
            Some(buf) => Some(buf),
            None => None,
        }
    }

    /// Return a checked-out buffer to the pool.
    ///
    /// The buffer must come back with the pool's buffer length, and the pool
    /// must have a checkout outstanding; the free list then grows by one, so
    /// an immediately following `checkout` succeeds.
    pub fn check_in(&mut self, buf: Vec<T>)
        requires
            old(self).wf(),
            old(self).outstanding() > 0,
            buf@.len() == old(self).spec_buf_len(),
        ensures
            final(self).wf(),
            final(self).spec_capacity() == old(self).spec_capacity(),
            final(self).spec_buf_len() == old(self).spec_buf_len(),
            final(self).free_count() == old(self).free_count() + 1,
            final(self).outstanding() == old(self).outstanding() - 1,
    {
        self.free.push(buf);
    }

    /// Number of buffers currently available, as an executable query.
    pub fn available(&self) -> (r: usize)
        ensures
            r == self.free_count(),
    {
        self.free.len()
    }
}

/// The number of outstanding checkouts never exceeds the pool's capacity:
/// it is the difference between the capacity and the free count, both of
/// which every operation keeps within bounds.
pub proof fn lemma_outstanding_bounded<T: Copy>(p: Pool<T>)
    requires
        p.wf(),
    ensures
        p.outstanding() <= p.spec_capacity(),
{
}

/// Returning a buffer always re-enables checkout: after `check_in` the free
/// count is positive, and `checkout` succeeds exactly when it is.
pub proof fn lemma_check_in_enables_checkout<T: Copy>(before: Pool<T>, after: Pool<T>)
    requires
        before.wf(),
        after.free_count() == before.free_count() + 1,
    ensures
        after.free_count() > 0,
{
}

} // verus!
