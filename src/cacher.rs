use vstd::prelude::*;
use std::collections::HashMap;
use crate::error::Error;
use crate::models::SecretPair;

verus! {

broadcast use vstd::std_specs::hash::group_hash_axioms;

/// How a cache behaves.
#[derive(Debug, Clone, Copy, PartialEq, Eq, Structural)]
pub enum CacheMode {
    /// Lookups and writes reach the stored entries.
    Active,
    /// Every lookup misses and writes are dropped: the cache is disabled.
    Bypass,
    /// Every lookup and every write fails, as with an unreachable server.
    Broken,
}

/// A digest-and-salt pair in its text form, or `None`.
pub open spec fn pair_option_view(o: Option<SecretPair>) -> Option<(Seq<char>, Seq<char>)> {
    match o {
        Some(p) => Some(p@),
        None => None,
    }
}

/// The entries after a write of `v` under `id`, in a cache of mode `mode`.
pub open spec fn put_into<V>(m: Map<u64, V>, mode: CacheMode, id: u64, v: V) -> Map<u64, V> {
    if mode == CacheMode::Active {
        m.insert(id, v)
    } else {
        m
    }
}

/// A cached user secret: the pair, and the app the user belongs to.
#[derive(Debug, Clone, PartialEq, Eq)]
pub struct CachedUserSecret {
    pub app_id: u64,
    pub pair: SecretPair,
}

impl View for CachedUserSecret {
    type V = (u64, (Seq<char>, Seq<char>));

    open spec fn view(&self) -> (u64, (Seq<char>, Seq<char>)) {
        (self.app_id, self.pair@)
    }
}

/// An optional cached user secret, in its view.
pub open spec fn user_option_view(o: Option<CachedUserSecret>) -> Option<
    (u64, (Seq<char>, Seq<char>)),
> {
    match o {
        Some(e) => Some(e@),
        None => None,
    }
}

/// A read-through cache, held in memory, from app ids and from user ids to
/// their current secret pairs.
pub struct MemoryCacher {
    apps: HashMap<u64, SecretPair>,
    users: HashMap<u64, CachedUserSecret>,
    mode: CacheMode,
}

impl MemoryCacher {
    pub closed spec fn app_view(&self) -> Map<u64, (Seq<char>, Seq<char>)> {
        self.apps@.map_values(|p: SecretPair| p@)
    }

    pub closed spec fn user_view(&self) -> Map<u64, (u64, (Seq<char>, Seq<char>))> {
        self.users@.map_values(|e: CachedUserSecret| e@)
    }

    pub closed spec fn mode(&self) -> CacheMode {
        self.mode
    }

    /// What a lookup of an app id finds: an entry only while the cache is
    /// active.
    pub open spec fn app_hit(&self, id: u64) -> Option<(Seq<char>, Seq<char>)> {
        if self.mode() == CacheMode::Active && self.app_view().contains_key(id) {
            Some(self.app_view()[id])
        } else {
            None
        }
    }

    /// What a lookup of a user id finds: an entry only while the cache is
    /// active.
    pub open spec fn user_hit(&self, id: u64) -> Option<(u64, (Seq<char>, Seq<char>))> {
        if self.mode() == CacheMode::Active && self.user_view().contains_key(id) {
            Some(self.user_view()[id])
        } else {
            None
        }
    }

    /// An empty cache of the given mode.
    pub fn with_mode(mode: CacheMode) -> (r: MemoryCacher)
        ensures
            r.mode() == mode,
            r.app_view() == Map::<u64, (Seq<char>, Seq<char>)>::empty(),
            r.user_view() == Map::<u64, (u64, (Seq<char>, Seq<char>))>::empty(),
    {
        let r = MemoryCacher { apps: HashMap::new(), users: HashMap::new(), mode };
        assert(r.app_view() =~= Map::<u64, (Seq<char>, Seq<char>)>::empty());
        assert(r.user_view() =~= Map::<u64, (u64, (Seq<char>, Seq<char>))>::empty());
        r
    }

    /// An empty, active cache.
    pub fn new() -> (r: MemoryCacher)
        ensures
            r.mode() == CacheMode::Active,
            r.app_view() == Map::<u64, (Seq<char>, Seq<char>)>::empty(),
            r.user_view() == Map::<u64, (u64, (Seq<char>, Seq<char>))>::empty(),
    {
        MemoryCacher::with_mode(CacheMode::Active)
    }

    pub fn get_mode(&self) -> (r: CacheMode)
        ensures
            r == self.mode(),
    {
        self.mode
    }

    fn unavailable() -> (r: Error)
        ensures
            r matches Error::CacherError(_),
    {
        Error::CacherError("cache unavailable".to_owned())
    }

    /// The cached pair of an app; fails only when the cache is broken.
    pub fn get_app_secret(&self, id: u64) -> (r: Result<Option<SecretPair>, Error>)
        ensures
            self.mode() == CacheMode::Broken ==> r matches Err(Error::CacherError(_)),
            self.mode() != CacheMode::Broken ==> r is Ok && pair_option_view(r->Ok_0)
                == self.app_hit(id),
    {
        match self.mode {
            CacheMode::Broken => Err(MemoryCacher::unavailable()),
            CacheMode::Bypass => Ok(None),
            CacheMode::Active => match self.apps.get(&id) {
                Some(p) => Ok(Some(p.duplicate())),
                None => Ok(None),
            },
        }
    }

    /// The cached secret of a user; fails only when the cache is broken.
    pub fn get_user_secret(&self, id: u64) -> (r: Result<Option<CachedUserSecret>, Error>)
        ensures
            self.mode() == CacheMode::Broken ==> r matches Err(Error::CacherError(_)),
            self.mode() != CacheMode::Broken ==> r is Ok && user_option_view(r->Ok_0)
                == self.user_hit(id),
    {
        match self.mode {
            CacheMode::Broken => Err(MemoryCacher::unavailable()),
            CacheMode::Bypass => Ok(None),
            CacheMode::Active => match self.users.get(&id) {
                Some(e) => Ok(Some(CachedUserSecret { app_id: e.app_id, pair: e.pair.duplicate() })),
                None => Ok(None),
            },
        }
    }

    /// Replaces the cached pair of an app; fails only when the cache is broken.
    pub fn put_app_secret(&mut self, id: u64, pair: SecretPair) -> (r: Result<(), Error>)
        ensures
            final(self).mode() == old(self).mode(),
            final(self).user_view() == old(self).user_view(),
            final(self).app_view() == put_into(old(self).app_view(), old(self).mode(), id, pair@),
            old(self).mode() == CacheMode::Broken ==> r matches Err(Error::CacherError(_)),
            old(self).mode() != CacheMode::Broken ==> r is Ok,
    {
        match self.mode {
            CacheMode::Broken => Err(MemoryCacher::unavailable()),
            CacheMode::Bypass => Ok(()),
            CacheMode::Active => {
                let ghost before = self.apps@;
                self.apps.insert(id, pair);
                assert(self.app_view() =~= before.map_values(|p: SecretPair| p@).insert(id, pair@));
                Ok(())
            },
        }
    }

    /// Replaces the cached secret of a user; fails only when the cache is
    /// broken.
    pub fn put_user_secret(&mut self, id: u64, entry: CachedUserSecret) -> (r: Result<(), Error>)
        ensures
            final(self).mode() == old(self).mode(),
            final(self).app_view() == old(self).app_view(),
            final(self).user_view() == put_into(old(self).user_view(), old(self).mode(), id, entry@),
            old(self).mode() == CacheMode::Broken ==> r matches Err(Error::CacherError(_)),
            old(self).mode() != CacheMode::Broken ==> r is Ok,
    {
        match self.mode {
            CacheMode::Broken => Err(MemoryCacher::unavailable()),
            CacheMode::Bypass => Ok(()),
            CacheMode::Active => {
                let ghost before = self.users@;
                self.users.insert(id, entry);
                assert(self.user_view() =~= before.map_values(|e: CachedUserSecret| e@).insert(
                    id,
                    entry@,
                ));
                Ok(())
            },
        }
    }

    /// Removes the cached pair of an app; fails only when the cache is broken.
    pub fn delete_app_secret(&mut self, id: u64) -> (r: Result<(), Error>)
        ensures
            final(self).mode() == old(self).mode(),
            final(self).user_view() == old(self).user_view(),
            old(self).mode() == CacheMode::Active ==> final(self).app_view() == old(
                self,
            ).app_view().remove(id),
            old(self).mode() != CacheMode::Active ==> final(self).app_view() == old(
                self,
            ).app_view(),
            old(self).mode() == CacheMode::Broken ==> r matches Err(Error::CacherError(_)),
            old(self).mode() != CacheMode::Broken ==> r is Ok,
    {
        match self.mode {
            CacheMode::Broken => Err(MemoryCacher::unavailable()),
            CacheMode::Bypass => Ok(()),
            CacheMode::Active => {
                let ghost before = self.apps@;
                self.apps.remove(&id);
                assert(self.app_view() =~= before.map_values(|p: SecretPair| p@).remove(id));
                Ok(())
            },
        }
    }
}

} // verus!
