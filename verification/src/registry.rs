//! The texture registry: an ownership map from opaque integer handles to
//! backend-native texture objects.
//!
//! Handles are assigned from a counter that only grows, so a handle is never
//! reused within a registry's lifetime: once removed, a handle stays
//! unresolvable. Lookup misses are reported as `None`, never as a failure —
//! the translator draws untextured on a miss.

use vstd::prelude::*;
use std::collections::HashMap;

verus! {

broadcast use vstd::std_specs::hash::group_hash_axioms;

/// Maps opaque integer handles to owned texture objects of the backend's
/// native type `T`.
pub struct TextureRegistry<T> {
    textures: HashMap<u64, T>,
    next: u64,
}

impl<T> View for TextureRegistry<T> {
    type V = Map<u64, T>;

    closed spec fn view(&self) -> Map<u64, T> {
        self.textures@
    }
}

/// What a lookup of `h` in a registry with contents `m` returns.
pub open spec fn spec_lookup<T>(m: Map<u64, T>, h: u64) -> Option<T> {
    if m.contains_key(h) {
        Some(m[h])
    } else {
        None
    }
}

impl<T> TextureRegistry<T> {
    /// The handle the next insertion will return.
    pub closed spec fn next_handle(&self) -> u64 {
        self.next
    }

    /// Every registered handle was assigned below the counter, so the
    /// counter's next value is fresh.
    pub open spec fn wf(&self) -> bool {
        forall|h: u64| self@.contains_key(h) ==> h < self.next_handle()
    }

    /// An empty registry; handles are assigned from zero upward.
    pub fn new() -> (r: Self)
        ensures
            r@ == Map::<u64, T>::empty(),
            r.next_handle() == 0,
            r.wf(),
    {
        TextureRegistry { textures: HashMap::new(), next: 0 }
    }

    /// Takes ownership of a texture and returns a fresh handle, never one
    /// handed out before.
    pub fn insert(&mut self, texture: T) -> (h: u64)
        requires
            old(self).wf(),
            old(self).next_handle() < u64::MAX,
        ensures
            final(self).wf(),
            h == old(self).next_handle(),
            !old(self)@.contains_key(h),
            final(self)@ == old(self)@.insert(h, texture),
            final(self).next_handle() == h + 1,
    {
        let h = self.next;
        self.textures.insert(h, texture);
        self.next = self.next + 1;
        proof {
            assert forall|k: u64| self@.contains_key(k) implies k < self.next_handle() by {
                if k != h {
                    assert(old(self)@.contains_key(k));
                }
            }
        }
        h
    }

    /// Read-only lookup; a stale or unknown handle yields `None`.
    pub fn get(&self, h: u64) -> (r: Option<&T>)
        ensures
            match r {
                Some(t) => spec_lookup(self@, h) == Some(*t),
                None => spec_lookup(self@, h) is None,
            },
    {
        self.textures.get(&h)
    }

    /// Whether `h` currently resolves to a texture.
    pub fn contains(&self, h: u64) -> (r: bool)
        ensures
            r == self@.contains_key(h),
    {
        self.textures.contains_key(&h)
    }

    /// Releases and returns the texture behind `h`; a no-op returning `None`
    /// on an unknown handle. The handle is not reassigned afterwards.
    pub fn remove(&mut self, h: u64) -> (r: Option<T>)
        requires
            old(self).wf(),
        ensures
            final(self).wf(),
            final(self)@ == old(self)@.remove(h),
            final(self).next_handle() == old(self).next_handle(),
            r == spec_lookup(old(self)@, h),
    {
        self.textures.remove(&h)
    }

    /// Number of textures currently registered.
    pub fn len(&self) -> (n: usize)
        ensures
            n == self@.dom().len(),
    {
        self.textures.len()
    }
}

/// Inserting a texture and immediately looking up the returned handle yields
/// exactly the texture inserted; a handle never assigned (at or above the
/// counter) resolves to nothing; and after a removal the removed handle
/// resolves to nothing. Stated over the registry contents that `insert`,
/// `get` and `remove` promise.
pub proof fn lemma_insert_then_get<T>(reg: TextureRegistry<T>, texture: T, other: u64)
    requires
        reg.wf(),
    ensures
        spec_lookup(reg@.insert(reg.next_handle(), texture), reg.next_handle()) == Some(texture),
        other >= reg.next_handle() ==> spec_lookup(reg@, other) is None,
        spec_lookup(reg@.remove(other), other) is None,
{
}

} // verus!
