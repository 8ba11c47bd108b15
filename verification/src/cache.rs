//! The holder cache: for each floating IP, the holder that was last handled.
//!
//! An entry records the holder identity of the last reconciliation that ran to
//! completion for that floating IP. The cache starts empty and may be lost at
//! any time: it only saves cloud calls, it decides nothing.

use vstd::hash_map::StringHashMap;
use vstd::prelude::*;

verus! {

/// Floating-IP name to the holder identity last handled for it.
pub struct HolderCache {
    entries: StringHashMap<String>,
}

impl View for HolderCache {
    type V = Map<Seq<char>, Seq<char>>;

    closed spec fn view(&self) -> Map<Seq<char>, Seq<char>> {
        self.entries@.map_values(|holder: String| holder@)
    }
}

/// Whether `cache` records `holder` as the holder last handled for the
/// floating IP `floating_ip_name`.
pub open spec fn is_synced(
    cache: Map<Seq<char>, Seq<char>>,
    floating_ip_name: Seq<char>,
    holder: Seq<char>,
) -> bool {
    cache.contains_key(floating_ip_name) && cache[floating_ip_name] == holder
}

impl HolderCache {
    /// The cold cache: nothing has been handled yet.
    pub fn new() -> (cache: Self)
        ensures
            cache@ == Map::<Seq<char>, Seq<char>>::empty(),
    {
        let cache = HolderCache { entries: StringHashMap::new() };
        assert(cache@ =~= Map::<Seq<char>, Seq<char>>::empty());
        cache
    }

    /// The holder last handled for a floating IP, if any.
    pub fn get(&self, floating_ip_name: &str) -> (holder: Option<String>)
        ensures
            match holder {
                Some(h) => self@.contains_key(floating_ip_name@) && h@ == self@[floating_ip_name@],
                None => !self@.contains_key(floating_ip_name@),
            },
    {
        match self.entries.get(floating_ip_name) {
            Some(holder) => Some(holder.clone()),
            None => None,
        }
    }

    /// Whether `holder` is the holder last handled for a floating IP.
    pub fn holds(&self, floating_ip_name: &str, holder: &String) -> (synced: bool)
        ensures
            synced == is_synced(self@, floating_ip_name@, holder@),
    {
        match self.entries.get(floating_ip_name) {
            Some(previous) => *previous == *holder,
            None => false,
        }
    }

    /// Records `holder` as the holder last handled for a floating IP,
    /// replacing the earlier entry. No other entry changes.
    pub fn set(&mut self, floating_ip_name: String, holder: String)
        ensures
            final(self)@ == old(self)@.insert(floating_ip_name@, holder@),
    {
        self.entries.insert(floating_ip_name, holder);
        assert(self@ =~= old(self)@.insert(floating_ip_name@, holder@));
    }
}

} // verus!
