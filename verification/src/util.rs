//! A value handed over once, tagged by a stable identity derived from a key.
use std::collections::hash_map::DefaultHasher;
use std::hash::Hasher;
use vstd::std_specs::hash::DefaultHasherAdditionalSpecFns;
use vstd::prelude::*;

use crate::external::{hash_str_into, str_hash_writes};

verus! {

/// The identity that `Smuggle::new` derives from a key: the `DefaultHasher`
/// digest of the key hashed as a string.
pub open spec fn key_identity(key: Seq<char>) -> u64 {
    DefaultHasher::spec_finish(Seq::<Seq<u8>>::empty() + str_hash_writes(key))
}

/// Carries a value into a place that can only be reached by identity
/// (such as a subscription), and lets it be taken out exactly once.
pub struct Smuggle<T> {
    id: u64,
    value: Option<T>,
}

impl<T> Smuggle<T> {
    /// The identity of this carrier.
    pub closed spec fn spec_id(&self) -> u64 {
        self.id
    }

    /// The value still held, if it has not been taken yet.
    pub closed spec fn spec_value(&self) -> Option<T> {
        self.value
    }

    /// Wraps `v`, tagged with the hash of `key`.
    pub fn new(key: &str, v: T) -> (r: Self)
        ensures
            r.spec_id() == key_identity(key@),
            r.spec_value() == Some(v),
    {
        let mut hasher = DefaultHasher::new();
        hash_str_into(key, &mut hasher);
        Smuggle { id: hasher.finish(), value: Some(v) }
    }

    /// The identity this carrier was tagged with.
    pub fn id(&self) -> (r: u64)
        ensures
            r == self.spec_id(),
    {
        self.id
    }

    /// Whether the value has not been taken yet.
    pub fn is_loaded(&self) -> (r: bool)
        ensures
            r == self.spec_value() is Some,
    {
        self.value.is_some()
    }

    /// Takes the value out; it can be taken only once.
    pub fn take(&mut self) -> (r: T)
        requires
            old(self).spec_value() is Some,
        ensures
            Some(r) == old(self).spec_value(),
            final(self).spec_value() is None,
            final(self).spec_id() == old(self).spec_id(),
    {
        self.value.take().unwrap()
    }
}

} // verus!
