//! The result of a successful validation pass: a mapping from a provider's
//! typed keys to the original string values. Values of this type are only
//! produced by the provider validators, never built directly by callers.

use vstd::prelude::*;

verus! {

/// A typed key-to-value mapping produced by validating a raw option store
/// against one provider's key schema. Entries are in store order; the
/// validators guarantee one entry per store entry, with distinct keys.
#[derive(Clone, Debug)]
pub struct ValidatedOptions<K> {
    entries: Vec<(K, String)>,
}

impl<K> ValidatedOptions<K> {
    /// The entries as a sequence of (typed key, value) pairs.
    pub closed spec fn entry_seq(self) -> Seq<(K, String)> {
        self.entries@
    }

    /// Wraps a finished entry list. Only the provider validators build one.
    pub(crate) fn from_entries(entries: Vec<(K, String)>) -> (r: Self)
        ensures
            r.entry_seq() == entries@,
    {
        ValidatedOptions { entries }
    }

    /// The number of entries.
    pub fn len(&self) -> (n: usize)
        ensures
            n == self.entry_seq().len(),
    {
        self.entries.len()
    }

    /// The entry at the given position.
    pub fn entry(&self, i: usize) -> (e: &(K, String))
        requires
            i < self.entry_seq().len(),
        ensures
            *e == self.entry_seq()[i as int],
    {
        &self.entries[i]
    }
}

} // verus!
