use vstd::prelude::*;

use crate::address::Address;

verus! {

/// What a cache holds at a moment: the stored address, if any, and how many
/// times the cache has run a resolver so far.
pub struct CacheState {
    pub slot: Option<Address>,
    pub resolutions: nat,
}

/// A fresh cache: nothing stored, no resolver run yet.
pub open spec fn fresh_state() -> CacheState {
    CacheState { slot: None, resolutions: 0 }
}

/// One `resolve` call that took the cache from `before` to `after` and returned `r`.
///
/// A stored address is returned as it is and nothing changes. With an empty slot
/// the resolver runs once; a memoizing cache keeps its result, any other cache
/// keeps nothing.
pub open spec fn resolve_step(before: CacheState, memoizes: bool, after: CacheState, r: Address) -> bool {
    match before.slot {
        Some(a) => r == a && after == before,
        None => {
            &&& after.resolutions == before.resolutions + 1
            &&& after.slot == (if memoizes { Some(r) } else { None })
        },
    }
}

/// A strategy for holding the resolved entry address of one foreign symbol.
pub trait Cache {
    /// What the cache holds.
    spec fn state(&self) -> CacheState;

    /// Whether the cache keeps a resolved address for later calls.
    spec fn memoizes() -> bool;

    /// The cache's internal consistency.
    spec fn inv(&self) -> bool;

    /// Returns the entry address, running `produce` when the cache holds none.
    ///
    /// A `produce` that re-enters `resolve` on the same cache is a misuse.
    fn resolve<F: FnOnce() -> Address>(&mut self, produce: F) -> (r: Address)
        requires
            old(self).inv(),
            produce.requires(()),
        ensures
            final(self).inv(),
            resolve_step(old(self).state(), Self::memoizes(), final(self).state(), r),
            old(self).state().slot is None ==> produce.ensures((), r),
    ;
}

/// A memoizing cache without synchronization: the first resolved address is
/// kept and returned from then on.
///
/// Callers that race on an empty slot may each run the resolver, the last
/// store winning; that is only sound with a resolver that always yields the
/// same address for the symbol.
pub struct StaticCache {
    value: Option<Address>,
    resolutions: Ghost<nat>,
}

impl StaticCache {
    pub fn new() -> (r: Self)
        ensures
            r.state() == fresh_state(),
            r.inv(),
    {
        StaticCache { value: None, resolutions: Ghost(0) }
    }
}

impl Default for StaticCache {
    fn default() -> (r: Self)
        ensures
            r.state() == fresh_state(),
            r.inv(),
    {
        StaticCache::new()
    }
}

impl Cache for StaticCache {
    closed spec fn state(&self) -> CacheState {
        CacheState { slot: self.value, resolutions: self.resolutions@ }
    }

    open spec fn memoizes() -> bool {
        true
    }

    closed spec fn inv(&self) -> bool {
        self.resolutions@ == (if self.value is Some { 1nat } else { 0nat })
    }

    fn resolve<F: FnOnce() -> Address>(&mut self, produce: F) -> (r: Address) {
        match self.value {
            Some(a) => a,
            None => {
                let r = produce();
                self.value = Some(r);
                self.resolutions = Ghost(self.resolutions@ + 1);
                r
            },
        }
    }
}

/// A memoizing cache whose resolution is guarded by a one-shot claim flag: the
/// resolver runs at most once over the cache's life.
///
/// The slot holds the null value until resolution; the flag, once claimed, is
/// never released.
pub struct StaticAtomicCache {
    value: usize,
    resolve_lock: bool,
    resolutions: Ghost<nat>,
}

impl StaticAtomicCache {
    pub fn new() -> (r: Self)
        ensures
            r.state() == fresh_state(),
            r.inv(),
    {
        proof {
            Address::lemma_null_is_none();
        }
        StaticAtomicCache { value: 0, resolve_lock: false, resolutions: Ghost(0) }
    }
}

impl Default for StaticAtomicCache {
    fn default() -> (r: Self)
        ensures
            r.state() == fresh_state(),
            r.inv(),
    {
        StaticAtomicCache::new()
    }
}

impl Cache for StaticAtomicCache {
    closed spec fn state(&self) -> CacheState {
        CacheState { slot: Address::from_addr(self.value), resolutions: self.resolutions@ }
    }

    open spec fn memoizes() -> bool {
        true
    }

    /// Under exclusive access the flag is claimed exactly when the slot is filled.
    closed spec fn inv(&self) -> bool {
        &&& self.resolve_lock == (self.value != 0)
        &&& self.resolutions@ == (if self.value != 0 { 1nat } else { 0nat })
    }

    fn resolve<F: FnOnce() -> Address>(&mut self, produce: F) -> (r: Address) {
        if let Some(a) = Address::new(self.value) {
            return a;
        }
        // The slot is empty, so the flag is unclaimed: claim it and resolve.
        self.resolve_lock = true;
        let r = produce();
        self.value = r.get();
        self.resolutions = Ghost(self.resolutions@ + 1);
        r
    }
}

/// No caching: every call runs the resolver, so a target whose address changes
/// between calls is always seen as it is now.
pub struct NoCache {
    resolutions: Ghost<nat>,
}

impl NoCache {
    pub fn new() -> (r: Self)
        ensures
            r.state() == fresh_state(),
            r.inv(),
    {
        NoCache { resolutions: Ghost(0) }
    }
}

impl Default for NoCache {
    fn default() -> (r: Self)
        ensures
            r.state() == fresh_state(),
            r.inv(),
    {
        NoCache::new()
    }
}

impl Cache for NoCache {
    closed spec fn state(&self) -> CacheState {
        CacheState { slot: None, resolutions: self.resolutions@ }
    }

    open spec fn memoizes() -> bool {
        false
    }

    closed spec fn inv(&self) -> bool {
        true
    }

    fn resolve<F: FnOnce() -> Address>(&mut self, produce: F) -> (r: Address) {
        let r = produce();
        self.resolutions = Ghost(self.resolutions@ + 1);
        r
    }
}

} // verus!
