//! The staging area between whoever produces raw pixels and the image data
//! set that consumes them.

use std::collections::HashMap;
use vstd::prelude::*;

verus! {

broadcast use vstd::std_specs::hash::group_hash_axioms;

/// Raw pixel buffers waiting to be decoded, by image id.
///
/// A producer fills it with [`RawBufferRegistry::insert`]; the image data set
/// drains it with [`RawBufferRegistry::take`], which hands each buffer out
/// once. Where producer and consumer live on different threads, the owner
/// keeps the registry behind one lock and calls these methods under it.
pub struct RawBufferRegistry {
    bufs: HashMap<u64, Vec<u16>>,
}

impl View for RawBufferRegistry {
    type V = Map<u64, Seq<u16>>;

    /// The staged buffers: image id to packed 16-bit colour samples.
    closed spec fn view(&self) -> Map<u64, Seq<u16>> {
        Map::new(|id: u64| self.bufs@.contains_key(id), |id: u64| self.bufs@[id]@)
    }
}

impl RawBufferRegistry {
    /// An empty registry.
    pub fn new() -> (registry: Self)
        ensures
            registry@ == Map::<u64, Seq<u16>>::empty(),
    {
        let registry = RawBufferRegistry { bufs: HashMap::new() };
        assert(registry@ =~= Map::<u64, Seq<u16>>::empty());
        registry
    }

    /// Stages `buf` for `id`, replacing a buffer staged earlier for it.
    pub fn insert(&mut self, id: u64, buf: Vec<u16>)
        ensures
            final(self)@ == old(self)@.insert(id, buf@),
    {
        self.bufs.insert(id, buf);
        assert(self@ =~= old(self)@.insert(id, buf@));
    }

    /// Whether a buffer is staged for `id`.
    pub fn contains(&self, id: u64) -> (staged: bool)
        ensures
            staged == self@.contains_key(id),
    {
        self.bufs.contains_key(&id)
    }

    /// How many buffers are staged.
    pub fn len(&self) -> (n: usize)
        ensures
            n == self@.len(),
    {
        proof {
            assert(self@.dom() =~= self.bufs@.dom());
        }
        self.bufs.len()
    }

    /// Removes the buffer staged for `id` and returns it; `None`, and no
    /// change, where none is staged.
    pub fn take(&mut self, id: u64) -> (buf: Option<Vec<u16>>)
        ensures
            old(self)@.contains_key(id) ==> (buf matches Some(b) && b@ == old(self)@[id]),
            !old(self)@.contains_key(id) ==> buf is None,
            final(self)@ == old(self)@.remove(id),
    {
        let buf = self.bufs.remove(&id);
        assert(self@ =~= old(self)@.remove(id));
        buf
    }
}

} // verus!
