//! Byte buffers handed to read and write operations, and the pool that
//! keeps idle pre-registered buffers for reuse.

use vstd::prelude::*;

verus! {

/// A plain owned block of bytes.
pub struct Slice {
    data: Vec<u8>,
}

impl View for Slice {
    type V = Seq<u8>;

    closed spec fn view(&self) -> Seq<u8> {
        self.data@
    }
}

/// The contents of a freshly allocated block of `size` bytes.
pub open spec fn zeroes(size: nat) -> Seq<u8> {
    Seq::new(size, |_i: int| 0u8)
}

impl Slice {
    /// Allocates a zero-filled block of `size` bytes.
    pub fn new(size: usize) -> (r: Slice)
        ensures
            r@ == zeroes(size as nat),
    {
        Slice { data: vec![0u8; size] }
    }

    /// Wraps bytes that the caller already holds.
    pub fn from_vec(data: Vec<u8>) -> (r: Slice)
        ensures
            r@ == data@,
    {
        Slice { data }
    }

    pub fn len(&self) -> (r: usize)
        ensures
            r == self@.len(),
    {
        self.data.len()
    }

    pub fn as_vec(&self) -> (r: &Vec<u8>)
        ensures
            r@ == self@,
    {
        &self.data
    }

    /// Mutable access to the bytes, for the code that fills the block or
    /// hands its address to the kernel.
    pub fn as_mut_vec(&mut self) -> (r: &mut Vec<u8>)
        ensures
            r@ == old(self)@,
            final(self)@ == final(r)@,
    {
        &mut self.data
    }
}

/// A block registered with the kernel under a fixed index.
pub struct Fixed {
    id: usize,
    data: Slice,
}

impl Fixed {
    pub closed spec fn spec_id(&self) -> usize {
        self.id
    }

    pub closed spec fn bytes(&self) -> Seq<u8> {
        self.data@
    }

    /// Allocates a zero-filled block of `size` bytes under index `id`.
    pub fn new(id: usize, size: usize) -> (r: Fixed)
        ensures
            r.spec_id() == id,
            r.bytes() == zeroes(size as nat),
    {
        Fixed { id, data: Slice::new(size) }
    }

    pub fn id(&self) -> (r: usize)
        ensures
            r == self.spec_id(),
    {
        self.id
    }

    pub fn len(&self) -> (r: usize)
        ensures
            r == self.bytes().len(),
    {
        self.data.len()
    }

    pub fn as_slice(&self) -> (r: &Slice)
        ensures
            r@ == self.bytes(),
    {
        &self.data
    }

    /// Mutable access to the block; the index stays as it was.
    pub fn as_mut_slice(&mut self) -> (r: &mut Slice)
        ensures
            r@ == old(self).bytes(),
            final(self).bytes() == final(r)@,
            final(self).spec_id() == old(self).spec_id(),
    {
        &mut self.data
    }
}

/// The indices of a sequence of fixed buffers.
pub open spec fn ids_of(s: Seq<Fixed>) -> Seq<usize> {
    s.map_values(|b: Fixed| b.spec_id())
}

/// Idle fixed buffers. The most recently returned buffer is handed out
/// first; no two idle buffers share an index.
pub struct Pool {
    buffers: Vec<Fixed>,
}

impl View for Pool {
    type V = Seq<Fixed>;

    closed spec fn view(&self) -> Seq<Fixed> {
        self.buffers@
    }
}

impl Pool {
    pub open spec fn ids(&self) -> Seq<usize> {
        ids_of(self@)
    }

    pub open spec fn holds(&self, id: usize) -> bool {
        self.ids().contains(id)
    }

    /// No index is held twice.
    pub open spec fn wf(&self) -> bool {
        self.ids().no_duplicates()
    }

    pub fn new() -> (r: Pool)
        ensures
            r@ == Seq::<Fixed>::empty(),
            r.wf(),
    {
        Pool { buffers: Vec::new() }
    }

    pub fn len(&self) -> (r: usize)
        ensures
            r == self@.len(),
    {
        self.buffers.len()
    }

    /// Returns an idle buffer to the pool.
    pub fn give(&mut self, buffer: Fixed)
        requires
            old(self).wf(),
            !old(self).holds(buffer.spec_id()),
        ensures
            final(self)@ == old(self)@.push(buffer),
            final(self).wf(),
    {
        proof {
            assert(ids_of(self@.push(buffer)) =~= self.ids().push(buffer.spec_id()));
        }
        self.buffers.push(buffer);
    }

    /// Takes the most recently returned buffer, if any; never allocates.
    pub fn take(&mut self) -> (r: Option<Fixed>)
        requires
            old(self).wf(),
        ensures
            final(self).wf(),
            old(self)@.len() == 0 ==> r.is_none() && final(self)@ == old(self)@,
            old(self)@.len() > 0 ==> r == Some(old(self)@.last()) && final(self)@
                == old(self)@.drop_last(),
            r.is_some() ==> !final(self).holds(r.unwrap().spec_id()),
    {
        let r = self.buffers.pop();
        proof {
            if r.is_some() {
                let s = old(self)@;
                assert(ids_of(s) =~= ids_of(s.drop_last()).push(s.last().spec_id()));
                assert(ids_of(s.drop_last()) =~= ids_of(s).drop_last());
                assert(ids_of(s).last() == s.last().spec_id());
                if ids_of(s.drop_last()).contains(s.last().spec_id()) {
                    let k = choose|k: int| 0 <= k < ids_of(s.drop_last()).len()
                        && ids_of(s.drop_last())[k] == s.last().spec_id();
                    assert(ids_of(s)[k] == ids_of(s)[s.len() - 1]);
                }
            }
        }
        r
    }
}

impl Default for Pool {
    fn default() -> (r: Pool)
        ensures
            r@ == Seq::<Fixed>::empty(),
    {
        Pool::new()
    }
}

} // verus!
