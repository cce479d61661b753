//! The configuration as the library sees it: the signing policy and the
//! alias mapping, loaded elsewhere and handed in as plain values.

use vstd::prelude::*;
use crate::text::copy_bytes;

verus! {

/// The signing policy: whether anchoring is enforced at all, and the
/// identifier of the designated signing key. Read-only once loaded.
#[derive(Debug, Clone, PartialEq, Eq)]
pub struct SigningPolicy {
    pub enabled: bool,
    pub key: Vec<u8>,
}

/// One alias-to-identifier binding of the mapping.
#[derive(Debug, Clone, PartialEq, Eq)]
pub struct AliasEntry {
    pub alias: Vec<u8>,
    pub key_id: Vec<u8>,
}

/// The alias mapping, in the order the configuration gave it.
#[derive(Debug, Clone, PartialEq, Eq)]
pub struct AliasTable {
    pub entries: Vec<AliasEntry>,
}

/// The key identifier the mapping binds to `alias`: the first entry whose
/// alias matches, if any.
pub open spec fn lookup_spec(entries: Seq<AliasEntry>, alias: Seq<u8>) -> Option<Seq<u8>>
    decreases entries.len(),
{
    if entries.len() == 0 {
        None
    } else if entries[0].alias@ == alias {
        Some(entries[0].key_id@)
    } else {
        lookup_spec(entries.drop_first(), alias)
    }
}

/// An optional byte string abstracted to its view.
pub open spec fn opt_bytes_view(r: Option<Vec<u8>>) -> Option<Seq<u8>> {
    match r {
        Some(v) => Some(v@),
        None => None,
    }
}

impl AliasTable {
    /// Resolve an alias to its key identifier, or `None` when the mapping
    /// has no such alias.
    pub fn lookup(&self, alias: &Vec<u8>) -> (r: Option<Vec<u8>>)
        ensures
            opt_bytes_view(r) == lookup_spec(self.entries@, alias@),
    {
        let mut i: usize = 0;
        proof {
            assert(self.entries@.skip(0) =~= self.entries@);
        }
        while i < self.entries.len()
            invariant
                i <= self.entries.len(),
                lookup_spec(self.entries@, alias@) == lookup_spec(
                    self.entries@.skip(i as int),
                    alias@,
                ),
            decreases self.entries.len() - i,
        {
            proof {
                let rest = self.entries@.skip(i as int);
                assert(rest[0] == self.entries@[i as int]);
                assert(rest.drop_first() =~= self.entries@.skip(i + 1));
            }
            if crate::text::bytes_eq(&self.entries[i].alias, alias) {
                return Some(copy_bytes(&self.entries[i].key_id));
            }
            i = i + 1;
        }
        proof {
            assert(self.entries@.skip(self.entries.len() as int) =~= Seq::<AliasEntry>::empty());
        }
        None
    }
}

} // verus!
