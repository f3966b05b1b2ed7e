//! The one kind of table that the state is kept in: an
//! `ink_storage::collections::HashMap` from a pair of words to a pair of
//! words.
//!
//! Verus does not look inside the map. What a table holds is given a name,
//! `content`, and each method that the crate calls on the map has a contract
//! over that name, taken from the method's documentation and source. None of
//! these contracts is proved: everything else in the crate rests on them.
//!
//! A table made by `new` is bound to no storage key, so every access is served
//! from the map's in-memory entries and nothing is read from or written to
//! contract storage. The map finds a key by the order of its key type; pairs
//! of integers are ordered by their parts, so two keys meet exactly when they
//! are equal.
//!
//! The map numbers its slots with a `u32`. `insert` opens a new slot only when
//! no freed one is left, so the count runs out only on a table that has held
//! 2^32 - 1 pairs at once; like running out of memory, which comes first, that
//! is outside these contracts.

use vstd::prelude::*;

verus! {

/// A key or a value of a table: two words of 128 bits.
pub type Words = (u128, u128);

/// A table from `Words` to `Words`. The map is hidden from Verus, which knows
/// of it what `content` names.
#[verifier::external_body]
pub struct Table {
    inner: ink_storage::collections::HashMap<(u128, u128), (u128, u128)>,
}

/// The pairs of key and value that a table holds.
pub uninterp spec fn content(table: Table) -> Map<(u128, u128), (u128, u128)>;

impl Table {
    /// Calls `ink_storage::collections::HashMap::new`. Claimed: the map holds
    /// nothing.
    #[verifier::external_body]
    pub(crate) fn new() -> (table: Table)
        ensures
            content(table) == (Map::<(u128, u128), (u128, u128)>::empty()),
    {
        Table { inner: ink_storage::collections::HashMap::new() }
    }

    /// Calls `ink_storage::collections::HashMap::get`. Claimed: it returns the
    /// value under the key, or nothing where the map does not hold the key.
    #[verifier::external_body]
    pub(crate) fn get(&self, key: Words) -> (found: Option<Words>)
        ensures
            found.is_some() == content(*self).contains_key(key),
            found.is_some() ==> found.unwrap() == content(*self)[key],
    {
        self.inner.get(&key).copied()
    }

    /// Calls `ink_storage::collections::HashMap::insert`. Claimed: afterwards
    /// the key has the new value and every other key is as before; it returns
    /// the value that the key had before, if any.
    #[verifier::external_body]
    pub(crate) fn insert(&mut self, key: Words, value: Words) -> (prior: Option<Words>)
        ensures
            content(*final(self)) == content(*old(self)).insert(key, value),
            prior.is_some() == content(*old(self)).contains_key(key),
            prior.is_some() ==> prior.unwrap() == content(*old(self))[key],
    {
        self.inner.insert(key, value)
    }

    /// Calls `ink_storage::collections::HashMap::take`. Claimed: afterwards the
    /// key is gone and every other key is as before; it returns the value that
    /// the key had, if any.
    #[verifier::external_body]
    pub(crate) fn take(&mut self, key: Words) -> (prior: Option<Words>)
        ensures
            content(*final(self)) == content(*old(self)).remove(key),
            prior.is_some() == content(*old(self)).contains_key(key),
            prior.is_some() ==> prior.unwrap() == content(*old(self))[key],
    {
        self.inner.take(&key)
    }
}

} // verus!
