use vstd::prelude::*;
use crate::cacher::{CacheMode, MemoryCacher};
use crate::error::Error;
use crate::hasher::hash_text;
use crate::protocol::{
    app_accepted, cache_aside_accepts, consistent, pair_accepts, stored_app_pair,
    stored_user_pair, user_accepted, verify_secret_result, PairText,
};
use crate::repository::MemoryRepository;
use crate::services::{first_user_index, login_query, login_rotated, LoginRequest, LoginResponse};

verus! {

/// After a login, no secret other than the one it returned verifies the
/// user, previously returned secrets included: they fail with
/// `InvalidCredential`. This holds unless the digest of the other secret
/// collides with that of the new one under the new salt.
pub proof fn lemma_login_revokes_other_secrets(
    r0: MemoryRepository,
    c0: MemoryCacher,
    r1: MemoryRepository,
    c1: MemoryCacher,
    req: LoginRequest,
    resp: LoginResponse,
    other: Seq<char>,
)
    requires
        r0.wf(),
        login_rotated(r0, c0, r1, c1, req, resp),
        forall|salt: Seq<char>| hash_text(other, salt) != hash_text(resp.secret@, salt),
    ensures
        verify_secret_result(r1, c1, resp.id, other, req.app_id, req.app_secret@) == Err::<
            (),
            Error,
        >(Error::InvalidCredential),
{
    let i = first_user_index(r0.users(), login_query(req));
    assert(r0.users()[i].id == i + 1);
    assert(stored_app_pair(r1, req.app_id) == stored_app_pair(r0, req.app_id));
    let salt = r1.users()[i].secret_salt@;
    assert(hash_text(other, salt) != hash_text(resp.secret@, salt));
}

/// Two consecutive successful logins of the same user never return the same
/// secret.
pub proof fn lemma_consecutive_logins_differ(
    r0: MemoryRepository,
    c0: MemoryCacher,
    r1: MemoryRepository,
    c1: MemoryCacher,
    r2: MemoryRepository,
    c2: MemoryCacher,
    first_req: LoginRequest,
    first: LoginResponse,
    second_req: LoginRequest,
    second: LoginResponse,
)
    requires
        r0.wf(),
        login_rotated(r0, c0, r1, c1, first_req, first),
        login_rotated(r1, c1, r2, c2, second_req, second),
        first.id == second.id,
    ensures
        first.secret@ != second.secret@,
{
    let i = first_user_index(r0.users(), login_query(first_req));
    let k = first_user_index(r1.users(), login_query(second_req));
    assert(r0.users()[i].id == i + 1);
    assert(r0.users()[k].id == k + 1);
    if k != i {
        assert(r1.users()[k] == r0.users()[k]);
    }
    assert(k == i);
}

/// Every failed verification reports one of two kinds: `InvalidAppCredential`
/// when the app is refused, and `InvalidCredential` otherwise, whatever the
/// cause.
pub proof fn lemma_verify_failure_kinds(
    repo: MemoryRepository,
    cacher: MemoryCacher,
    id: u64,
    secret: Seq<char>,
    app_id: u64,
    app_secret: Seq<char>,
)
    ensures
        ({
            let r = verify_secret_result(repo, cacher, id, secret, app_id, app_secret);
            &&& r is Ok || r == Err::<(), Error>(Error::InvalidAppCredential) || r == Err::<
                (),
                Error,
            >(Error::InvalidCredential)
            &&& r == Err::<(), Error>(Error::InvalidAppCredential) <==> !app_accepted(
                repo,
                cacher,
                app_id,
                app_secret,
            )
        }),
{
}

/// Under an app's valid credential, a user id that is not stored, a user of
/// another app, and a wrong secret for a stored user of the app all give the
/// same result, `InvalidCredential`, whatever a cache that holds only
/// committed entries holds.
pub proof fn lemma_unknown_user_like_wrong_secret(
    repo: MemoryRepository,
    cacher: MemoryCacher,
    app_id: u64,
    app_secret: Seq<char>,
    unknown_id: u64,
    foreign_id: u64,
    known_id: u64,
    any_secret: Seq<char>,
    wrong_secret: Seq<char>,
)
    requires
        app_accepted(repo, cacher, app_id, app_secret),
        !(1 <= unknown_id <= repo.users().len()),
        1 <= foreign_id <= repo.users().len(),
        repo.users()[foreign_id - 1].app_id != app_id,
        1 <= known_id <= repo.users().len(),
        repo.users()[known_id - 1].app_id == app_id,
        !pair_accepts(repo.users()[known_id - 1].secret_view(), wrong_secret),
        consistent(repo, cacher),
    ensures
        verify_secret_result(repo, cacher, unknown_id, any_secret, app_id, app_secret) == Err::<
            (),
            Error,
        >(Error::InvalidCredential),
        verify_secret_result(repo, cacher, foreign_id, any_secret, app_id, app_secret)
            == verify_secret_result(repo, cacher, unknown_id, any_secret, app_id, app_secret),
        verify_secret_result(repo, cacher, known_id, wrong_secret, app_id, app_secret)
            == verify_secret_result(repo, cacher, unknown_id, any_secret, app_id, app_secret),
{
}

/// An app id that is not stored and a wrong app secret give the same result,
/// `InvalidAppCredential`, whatever a cache that holds only committed
/// entries holds.
pub proof fn lemma_unknown_app_like_wrong_secret(
    repo: MemoryRepository,
    cacher: MemoryCacher,
    unknown_app: u64,
    known_app: u64,
    any_secret: Seq<char>,
    wrong_secret: Seq<char>,
    id: u64,
    secret: Seq<char>,
)
    requires
        !(1 <= unknown_app <= repo.apps().len()),
        1 <= known_app <= repo.apps().len(),
        !pair_accepts(
            (repo.apps()[known_app - 1].secret@, repo.apps()[known_app - 1].secret_salt@),
            wrong_secret,
        ),
        consistent(repo, cacher),
    ensures
        !app_accepted(repo, cacher, unknown_app, any_secret),
        !app_accepted(repo, cacher, known_app, wrong_secret),
        verify_secret_result(repo, cacher, id, secret, unknown_app, any_secret) == Err::<
            (),
            Error,
        >(Error::InvalidAppCredential),
        verify_secret_result(repo, cacher, id, secret, known_app, wrong_secret) == Err::<
            (),
            Error,
        >(Error::InvalidAppCredential),
{
    if cacher.app_hit(unknown_app) is Some {
        assert(cacher.app_view().contains_key(unknown_app));
    }
    if cacher.app_hit(known_app) is Some {
        assert(cacher.app_view().contains_key(known_app));
    }
}

/// The cache-aside decision with a cached pair that equals the stored one is
/// the decision of the store alone.
pub proof fn lemma_cache_aside_transparent(
    cached: Option<PairText>,
    stored: Option<PairText>,
    secret: Seq<char>,
)
    requires
        cached is None || cached == stored,
    ensures
        cache_aside_accepts(cached, stored, secret) == cache_aside_accepts(None, stored, secret),
{
}

/// Disabling the cache does not change the outcome of any verification, as
/// long as the cache holds only committed entries.
pub proof fn lemma_disabled_cache_same_outcome(
    repo: MemoryRepository,
    cacher: MemoryCacher,
    disabled: MemoryCacher,
    id: u64,
    secret: Seq<char>,
    app_id: u64,
    app_secret: Seq<char>,
)
    requires
        consistent(repo, cacher),
        disabled.mode() != CacheMode::Active,
    ensures
        app_accepted(repo, cacher, app_id, app_secret) == app_accepted(
            repo,
            disabled,
            app_id,
            app_secret,
        ),
        user_accepted(repo, cacher, id, app_id, secret) == user_accepted(
            repo,
            disabled,
            id,
            app_id,
            secret,
        ),
        verify_secret_result(repo, cacher, id, secret, app_id, app_secret) == verify_secret_result(
            repo,
            disabled,
            id,
            secret,
            app_id,
            app_secret,
        ),
{
    lemma_cache_aside_transparent(cacher.app_hit(app_id), stored_app_pair(repo, app_id), app_secret);
    if cacher.user_hit(id) is Some {
        assert(cacher.user_view().contains_key(id));
    }
}

} // verus!
