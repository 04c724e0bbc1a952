//! The per-entity buffer of records awaiting transmission.
use vstd::prelude::*;

verus! {

/// Records of one entity in generation order, flushed once `batch_size` of
/// them have gathered.
pub struct Batch<T> {
    items: Vec<T>,
    batch_size: usize,
}

impl<T> View for Batch<T> {
    type V = Seq<T>;

    closed spec fn view(&self) -> Seq<T> {
        self.items@
    }
}

impl<T> Batch<T> {
    pub closed spec fn spec_batch_size(&self) -> nat {
        self.batch_size as nat
    }

    pub fn new(batch_size: usize) -> (r: Batch<T>)
        ensures
            r@.len() == 0,
            r.spec_batch_size() == batch_size,
    {
        Batch { items: Vec::new(), batch_size }
    }

    pub fn batch_size(&self) -> (r: usize)
        ensures
            r == self.spec_batch_size(),
    {
        self.batch_size
    }

    /// Adds `record` after every record already held.
    pub fn append(&mut self, record: T)
        ensures
            final(self)@ == old(self)@.push(record),
            final(self).spec_batch_size() == old(self).spec_batch_size(),
    {
        self.items.push(record);
    }

    /// Whether the batch has reached its configured size.
    pub fn should_flush(&self) -> (r: bool)
        ensures
            r == (self@.len() >= self.spec_batch_size()),
    {
        self.items.len() >= self.batch_size
    }

    pub fn len(&self) -> (r: usize)
        ensures
            r == self@.len(),
    {
        self.items.len()
    }

    pub fn is_empty(&self) -> (r: bool)
        ensures
            r == (self@.len() == 0),
    {
        self.items.len() == 0
    }

    /// Hands out every held record, in order, and leaves the batch empty.
    pub fn drain(&mut self) -> (r: Vec<T>)
        ensures
            r@ == old(self)@,
            final(self)@.len() == 0,
            final(self).spec_batch_size() == old(self).spec_batch_size(),
    {
        let mut out = Vec::new();
        std::mem::swap(&mut out, &mut self.items);
        out
    }
}

} // verus!
