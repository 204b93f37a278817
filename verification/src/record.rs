//! The configuration record: the value a store saves and loads.
//!
//! A record is a dictionary of settings, mapping string keys to integer
//! values — the shape every supported storage format can carry. The store
//! never inspects a record beyond handing it to a codec, so the record's own
//! operations are thin wrappers over the standard ordered map; their
//! contracts speak of the record's contents through [`record_entries`].

use vstd::prelude::*;

verus! {

/// The entries a record holds, as a map from key characters to values.
///
/// This names the contents of the inner `BTreeMap`; the wrappers below state
/// how each operation changes it.
pub uninterp spec fn record_entries(r: Record) -> Map<Seq<char>, i64>;

/// The contents of a record with nothing in it.
pub open spec fn empty_entries() -> Map<Seq<char>, i64> {
    Map::empty()
}

/// A configuration record: string-keyed integer settings.
#[derive(Debug, Clone, PartialEq)]
pub struct Record {
    pub(crate) entries: std::collections::BTreeMap<String, i64>,
}

impl Record {
    /// Relies on `BTreeMap::new`: the new map holds no entries.
    #[verifier::external_body]
    pub fn new() -> (r: Record)
        ensures
            record_entries(r) == empty_entries(),
    {
        Record { entries: std::collections::BTreeMap::new() }
    }

    /// Relies on `BTreeMap::insert`: the entry joins the map, replacing any
    /// earlier entry under the same key.
    #[verifier::external_body]
    pub fn set(&mut self, key: &str, value: i64)
        ensures
            record_entries(*final(self)) == record_entries(*old(self)).insert(key@, value),
    {
        self.entries.insert(key.to_owned(), value);
    }

    /// Relies on `BTreeMap::get`: returns the value stored under the key, or
    /// `None` when the key is absent.
    #[verifier::external_body]
    pub fn get(&self, key: &str) -> (r: Option<i64>)
        ensures
            r == if record_entries(*self).contains_key(key@) {
                Some(record_entries(*self)[key@])
            } else {
                None::<i64>
            },
    {
        self.entries.get(key).copied()
    }
}

} // verus!
