//! A per-user cache of command-check results. The host program wraps it
//! in its own synchronisation and consults the store on a miss; the cache
//! itself is a pair of exact maps.

use std::collections::HashMap;
use vstd::prelude::*;

verus! {

broadcast use vstd::std_specs::hash::group_hash_axioms;

/// Cached answers to the "has an account" and "is in an alliance" checks,
/// keyed by user identity.
pub struct CheckCache {
    has_account_cache: HashMap<u64, bool>,
    in_alliance_cache: HashMap<u64, bool>,
}

impl CheckCache {
    pub closed spec fn spec_has_account(&self) -> Map<u64, bool> {
        self.has_account_cache@
    }

    pub closed spec fn spec_in_alliance(&self) -> Map<u64, bool> {
        self.in_alliance_cache@
    }

    /// An empty cache.
    pub fn new() -> (r: CheckCache)
        ensures
            r.spec_has_account() == Map::<u64, bool>::empty(),
            r.spec_in_alliance() == Map::<u64, bool>::empty(),
    {
        CheckCache { has_account_cache: HashMap::new(), in_alliance_cache: HashMap::new() }
    }

    /// Records a fresh answer to the account check.
    pub fn insert_has_account(&mut self, user_id: u64, value: bool)
        ensures
            final(self).spec_has_account() == old(self).spec_has_account().insert(user_id, value),
            final(self).spec_in_alliance() == old(self).spec_in_alliance(),
    {
        self.has_account_cache.insert(user_id, value);
    }

    /// The cached answer to the account check, if any.
    pub fn get_has_account(&self, user_id: u64) -> (r: Option<bool>)
        ensures
            r == (if self.spec_has_account().contains_key(user_id) {
                Some(self.spec_has_account()[user_id])
            } else {
                None::<bool>
            }),
    {
        match self.has_account_cache.get(&user_id) {
            Some(v) => Some(*v),
            None => None,
        }
    }

    /// Records a fresh answer to the alliance check.
    pub fn insert_in_alliance(&mut self, user_id: u64, value: bool)
        ensures
            final(self).spec_in_alliance() == old(self).spec_in_alliance().insert(user_id, value),
            final(self).spec_has_account() == old(self).spec_has_account(),
    {
        self.in_alliance_cache.insert(user_id, value);
    }

    /// The cached answer to the alliance check, if any.
    pub fn get_in_alliance(&self, user_id: u64) -> (r: Option<bool>)
        ensures
            r == (if self.spec_in_alliance().contains_key(user_id) {
                Some(self.spec_in_alliance()[user_id])
            } else {
                None::<bool>
            }),
    {
        match self.in_alliance_cache.get(&user_id) {
            Some(v) => Some(*v),
            None => None,
        }
    }
}

} // verus!
