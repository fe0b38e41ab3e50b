use vstd::prelude::*;
use crate::cacher::{put_into, CacheMode, MemoryCacher};
use crate::error::Error;
use crate::hasher::hash_text;
use crate::models::User;
use crate::repository::MemoryRepository;

verus! {

/// A secret pair in text form: the digest, then the salt.
pub type PairText = (Seq<char>, Seq<char>);

/// Whether `secret` hashes, under the pair's salt, to the pair's digest.
pub open spec fn pair_accepts(pair: PairText, secret: Seq<char>) -> bool {
    hash_text(secret, pair.1) == pair.0
}

/// The cache-aside decision: a cached pair, when there is one, decides alone;
/// otherwise the stored pair decides, and an absent entity refuses.
pub open spec fn cache_aside_accepts(
    cached: Option<PairText>,
    stored: Option<PairText>,
    secret: Seq<char>,
) -> bool {
    match cached {
        Some(p) => pair_accepts(p, secret),
        None => match stored {
            Some(p) => pair_accepts(p, secret),
            None => false,
        },
    }
}

/// The stored secret pair of the app with id `id`, if there is one.
pub open spec fn stored_app_pair(repo: MemoryRepository, id: u64) -> Option<PairText> {
    if 1 <= id <= repo.apps().len() {
        Some((repo.apps()[id - 1].secret@, repo.apps()[id - 1].secret_salt@))
    } else {
        None
    }
}

/// The stored secret pair of the user with id `id`, if that user belongs to
/// the app `app_id`.
pub open spec fn stored_user_pair(repo: MemoryRepository, id: u64, app_id: u64) -> Option<
    PairText,
> {
    if 1 <= id <= repo.users().len() && repo.users()[id - 1].app_id == app_id {
        Some(repo.users()[id - 1].secret_view())
    } else {
        None
    }
}

/// Whether the app `id` is authenticated by `secret`.
pub open spec fn app_accepted(
    repo: MemoryRepository,
    cacher: MemoryCacher,
    id: u64,
    secret: Seq<char>,
) -> bool {
    cache_aside_accepts(cacher.app_hit(id), stored_app_pair(repo, id), secret)
}

/// Whether the user `id`, of the app `app_id`, is authenticated by `secret`.
/// A cached entry decides alone, and accepts only for the app it names.
pub open spec fn user_accepted(
    repo: MemoryRepository,
    cacher: MemoryCacher,
    id: u64,
    app_id: u64,
    secret: Seq<char>,
) -> bool {
    match cacher.user_hit(id) {
        Some(e) => e.0 == app_id && pair_accepts(e.1, secret),
        None => cache_aside_accepts(None, stored_user_pair(repo, id, app_id), secret),
    }
}

/// The cache entries after a verification: on a miss that the stored pair
/// accepted, the stored pair is written back.
pub open spec fn refilled(
    m: Map<u64, PairText>,
    mode: CacheMode,
    hit: Option<PairText>,
    stored: Option<PairText>,
    id: u64,
    secret: Seq<char>,
) -> Map<u64, PairText> {
    if hit is None && stored is Some && pair_accepts(stored->0, secret) {
        put_into(m, mode, id, stored->0)
    } else {
        m
    }
}

/// The user cache entries after a verification: on a miss that the stored
/// user of the app accepted, its app and pair are written back.
pub open spec fn user_refilled(
    m: Map<u64, (u64, PairText)>,
    mode: CacheMode,
    hit: Option<(u64, PairText)>,
    stored: Option<PairText>,
    id: u64,
    app_id: u64,
    secret: Seq<char>,
) -> Map<u64, (u64, PairText)> {
    if hit is None && stored is Some && pair_accepts(stored->0, secret) {
        put_into(m, mode, id, (app_id, stored->0))
    } else {
        m
    }
}

/// The cache after an app check of `id` with `secret`.
pub open spec fn app_checked(
    repo: MemoryRepository,
    before: MemoryCacher,
    after: MemoryCacher,
    id: u64,
    secret: Seq<char>,
) -> bool {
    &&& after.mode() == before.mode()
    &&& after.user_view() == before.user_view()
    &&& after.app_view() == refilled(
        before.app_view(),
        before.mode(),
        before.app_hit(id),
        stored_app_pair(repo, id),
        id,
        secret,
    )
}

/// What a secret verification returns: the app is checked first, then the
/// user, and each failure has a single kind whatever its cause.
pub open spec fn verify_secret_result(
    repo: MemoryRepository,
    cacher: MemoryCacher,
    id: u64,
    secret: Seq<char>,
    app_id: u64,
    app_secret: Seq<char>,
) -> Result<(), Error> {
    if !app_accepted(repo, cacher, app_id, app_secret) {
        Err(Error::InvalidAppCredential)
    } else if !user_accepted(repo, cacher, id, app_id, secret) {
        Err(Error::InvalidCredential)
    } else {
        Ok(())
    }
}

/// Whether every active cache entry holds the pair that is stored for its
/// entity: the cache is only written with committed pairs.
pub open spec fn consistent(repo: MemoryRepository, cacher: MemoryCacher) -> bool {
    cacher.mode() == CacheMode::Active ==> {
        &&& forall|id: u64|
            #[trigger] cacher.app_view().contains_key(id) ==> stored_app_pair(repo, id) == Some(
                cacher.app_view()[id],
            )
        &&& forall|id: u64|
            #[trigger] cacher.user_view().contains_key(id) ==> 1 <= id <= repo.users().len()
                && repo.users()[id - 1].app_id == cacher.user_view()[id].0
                && repo.users()[id - 1].secret_view() == cacher.user_view()[id].1
    }
}

/// Whether `u` has both password fields and `password` matches them.
pub open spec fn password_accepts(u: User, password: Seq<char>) -> bool {
    &&& u.password is Some
    &&& u.password_salt is Some
    &&& hash_text(password, u.password_salt->0@) == u.password->0@
}

/// `b` is `a` with, at most, its secret pair and update time changed.
pub open spec fn same_but_secret(a: User, b: User) -> bool {
    &&& b.id == a.id
    &&& b.phone == a.phone
    &&& b.email == a.email
    &&& b.password == a.password
    &&& b.password_salt == a.password_salt
    &&& b.app_id == a.app_id
    &&& b.created_at == a.created_at
}

} // verus!
