use vstd::prelude::*;
use crate::cacher::{put_into, CachedUserSecret, MemoryCacher};
use crate::error::Error;
use crate::hasher::ShaHasher;
use crate::models::{CreateApp, CreateUser, QueryApp, QueryUser, SecretPair, UpdateUser, User};
use crate::protocol::{
    app_accepted, app_checked, pair_accepts, password_accepts, refilled, same_but_secret, user_refilled,
    stored_app_pair, stored_user_pair, user_accepted, verify_secret_result, consistent,
};
use crate::hasher::hash_text;
use crate::repository::{
    is_first_user_match, lemma_count_id_query, MemoryRepository, Transaction,
};
use crate::secret_generator::SecretGenerator;
use crate::verify_code::{lookup, VerifyCodeManager};

verus! {

pub struct RegisterAppRequest {
    pub name: String,
}

pub struct RegisterAppResponse {
    pub id: u64,
    pub name: String,
    pub secret: String,
}

pub struct SendVerifyCodeRequest {
    pub phone: Option<String>,
    pub email: Option<String>,
}

pub struct RegisterUserRequest {
    pub phone: Option<String>,
    pub email: Option<String>,
    pub password: String,
    pub verify_code: String,
    pub app_id: u64,
    pub app_secret: String,
}

pub struct RegisterUserResponse {
    pub id: u64,
    pub secret: String,
}

pub struct LoginRequest {
    pub phone: Option<String>,
    pub email: Option<String>,
    pub password: String,
    pub app_id: u64,
    pub app_secret: String,
}

pub struct LoginResponse {
    pub id: u64,
    pub secret: String,
}

pub struct VerifySecretRequest {
    pub id: u64,
    pub secret: String,
    pub app_id: u64,
    pub app_secret: String,
}

/// Stores a new app named `name` whose secret is `secret`, under the salt
/// `secret_salt`: only the digest is stored, and `secret` is returned in plain
/// text. The cache is then given the new pair; a cache failure does not fail
/// the registration. Fails, storing nothing, when no app id is left.
pub fn create_app(
    repo: &mut MemoryRepository,
    hasher: &ShaHasher,
    cacher: &mut MemoryCacher,
    name: String,
    secret: String,
    secret_salt: String,
) -> (r: Result<RegisterAppResponse, Error>)
    requires
        old(repo).wf(),
    ensures
        final(repo).wf(),
        final(repo).users() == old(repo).users(),
        final(cacher).mode() == old(cacher).mode(),
        final(cacher).user_view() == old(cacher).user_view(),
        r is Ok <==> old(repo).apps().len() + 1 < u64::MAX,
        r is Err ==> {
            &&& r matches Err(Error::RepositoryError(_))
            &&& final(repo).apps() == old(repo).apps()
            &&& final(cacher).app_view() == old(cacher).app_view()
        },
        r matches Ok(resp) ==> {
            let app = final(repo).apps().last();
            &&& resp.id == old(repo).apps().len() + 1
            &&& resp.name == name
            &&& resp.secret == secret
            &&& final(repo).apps() == old(repo).apps().push(app)
            &&& app.id == resp.id
            &&& app.name == name
            &&& app.secret@ == hash_text(secret@, secret_salt@)
            &&& app.secret_salt == secret_salt
            &&& final(cacher).app_view() == put_into(
                old(cacher).app_view(),
                old(cacher).mode(),
                resp.id,
                (app.secret@, app.secret_salt@),
            )
        },
        consistent(*old(repo), *old(cacher)) ==> consistent(*final(repo), *final(cacher)),
{
    let hashed_secret = hasher.hash(secret.as_str(), secret_salt.as_str());
    let mut tx = repo.begin();
    let now = tx.now;
    let id = tx.working.insert_app(
        CreateApp {
            name: name.clone(),
            secret: hashed_secret.clone(),
            secret_salt: secret_salt.clone(),
        },
        now,
    )?;
    repo.commit(tx);
    assert(repo.apps().drop_last() =~= old(repo).apps());
    let _ = cacher.put_app_secret(id, SecretPair { hashed_secret, secret_salt });
    Ok(RegisterAppResponse { id, name, secret })
}

/// Registers an app: its secret is generated, stored as a salted digest and
/// returned in plain text this once. The cache is then given the new pair;
/// a cache failure does not fail the registration.
pub fn register_app<S: SecretGenerator>(
    repo: &mut MemoryRepository,
    secret_generator: &S,
    hasher: &ShaHasher,
    cacher: &mut MemoryCacher,
    req: RegisterAppRequest,
) -> (r: Result<RegisterAppResponse, Error>)
    requires
        old(repo).wf(),
    ensures
        final(repo).wf(),
        final(repo).users() == old(repo).users(),
        final(cacher).mode() == old(cacher).mode(),
        final(cacher).user_view() == old(cacher).user_view(),
        r is Ok <==> old(repo).apps().len() + 1 < u64::MAX,
        r is Err ==> {
            &&& r matches Err(Error::RepositoryError(_))
            &&& final(repo).apps() == old(repo).apps()
            &&& final(cacher).app_view() == old(cacher).app_view()
        },
        r matches Ok(resp) ==> {
            let app = final(repo).apps().last();
            &&& resp.id == old(repo).apps().len() + 1
            &&& resp.name@ == req.name@
            &&& final(repo).apps().len() == old(repo).apps().len() + 1
            &&& final(repo).apps() == old(repo).apps().push(app)
            &&& app.id == resp.id
            &&& app.name@ == req.name@
            &&& pair_accepts((app.secret@, app.secret_salt@), resp.secret@)
            &&& final(cacher).app_view() == put_into(
                old(cacher).app_view(),
                old(cacher).mode(),
                resp.id,
                (app.secret@, app.secret_salt@),
            )
        },
        consistent(*old(repo), *old(cacher)) ==> consistent(*final(repo), *final(cacher)),
{
    let secret = secret_generator.generate_secret();
    let secret_salt = hasher.generate_salt();
    create_app(repo, hasher, cacher, req.name, secret, secret_salt)
}

/// Checks an app's id and secret by the cache-aside protocol: a cached pair
/// decides alone; on a miss, or when the cache fails, the stored app decides
/// and, if it accepts, its pair is written back to the cache. Every failure
/// is `InvalidAppCredential`.
pub fn verify_app_secret(
    repo: &MemoryRepository,
    hasher: &ShaHasher,
    cacher: &mut MemoryCacher,
    id: u64,
    secret: &String,
) -> (r: Result<(), Error>)
    requires
        repo.wf(),
    ensures
        r == if app_accepted(*repo, *old(cacher), id, secret@) {
            Ok::<(), Error>(())
        } else {
            Err(Error::InvalidAppCredential)
        },
        app_checked(*repo, *old(cacher), *final(cacher), id, secret@),
        consistent(*repo, *old(cacher)) ==> consistent(*repo, *final(cacher)),
{
    let cached = match cacher.get_app_secret(id) {
        Ok(c) => c,
        Err(_) => None,
    };
    match cached {
        Some(pair) => {
            if hasher.hash(secret.as_str(), pair.secret_salt.as_str()) == pair.hashed_secret {
                Ok(())
            } else {
                Err(Error::InvalidAppCredential)
            }
        },
        None => match repo.fetch_app(&QueryApp { id_eq: Some(id) }) {
            None => Err(Error::InvalidAppCredential),
            Some(app) => {
                let hashed_secret = hasher.hash(secret.as_str(), app.secret_salt.as_str());
                if !(hashed_secret == app.secret) {
                    return Err(Error::InvalidAppCredential);
                }
                let _ = cacher.put_app_secret(
                    id,
                    SecretPair { hashed_secret, secret_salt: app.secret_salt },
                );
                Ok(())
            },
        },
    }
}

/// Checks a user's id and secret by the cache-aside protocol, within the app
/// `app_id`: a cached entry decides alone and accepts only for the app it
/// names; on a miss the stored user must belong to `app_id`. Every failure is
/// `InvalidCredential`.
fn check_user_secret(
    repo: &MemoryRepository,
    hasher: &ShaHasher,
    cacher: &mut MemoryCacher,
    id: u64,
    app_id: u64,
    secret: &String,
) -> (r: Result<(), Error>)
    requires
        repo.wf(),
    ensures
        r == if user_accepted(*repo, *old(cacher), id, app_id, secret@) {
            Ok::<(), Error>(())
        } else {
            Err(Error::InvalidCredential)
        },
        final(cacher).mode() == old(cacher).mode(),
        final(cacher).app_view() == old(cacher).app_view(),
        final(cacher).user_view() == user_refilled(
            old(cacher).user_view(),
            old(cacher).mode(),
            old(cacher).user_hit(id),
            stored_user_pair(*repo, id, app_id),
            id,
            app_id,
            secret@,
        ),
{
    let cached = match cacher.get_user_secret(id) {
        Ok(c) => c,
        Err(_) => None,
    };
    match cached {
        Some(entry) => {
            if entry.app_id == app_id && hasher.hash(secret.as_str(), entry.pair.secret_salt.as_str())
                == entry.pair.hashed_secret {
                Ok(())
            } else {
                Err(Error::InvalidCredential)
            }
        },
        None => {
            let q = QueryUser { id_eq: Some(id), phone_eq: None, email_eq: None, app_id_eq: Some(app_id) };
            match repo.fetch_user(&q) {
                None => {
                    proof {
                        if 1 <= id <= repo.users().len() {
                            assert(repo.users()[id - 1].id == id);
                        }
                    }
                    Err(Error::InvalidCredential)
                },
                Some(user) => {
                    let hashed_secret = hasher.hash(secret.as_str(), user.secret_salt.as_str());
                    if !(hashed_secret == user.secret) {
                        return Err(Error::InvalidCredential);
                    }
                    let _ = cacher.put_user_secret(
                        id,
                        CachedUserSecret {
                            app_id,
                            pair: SecretPair { hashed_secret, secret_salt: user.secret_salt },
                        },
                    );
                    Ok(())
                },
            }
        },
    }
}

/// Verifies a user's secret: first the app's credential, then the user's
/// secret by the cache-aside protocol, within that app.
pub fn verify_secret(
    repo: &MemoryRepository,
    hasher: &ShaHasher,
    cacher: &mut MemoryCacher,
    req: VerifySecretRequest,
) -> (r: Result<(), Error>)
    requires
        repo.wf(),
    ensures
        r == verify_secret_result(*repo, *old(cacher), req.id, req.secret@, req.app_id, req.app_secret@),
        final(cacher).mode() == old(cacher).mode(),
        final(cacher).app_view() == refilled(
            old(cacher).app_view(),
            old(cacher).mode(),
            old(cacher).app_hit(req.app_id),
            crate::protocol::stored_app_pair(*repo, req.app_id),
            req.app_id,
            req.app_secret@,
        ),
        final(cacher).user_view() == if app_accepted(*repo, *old(cacher), req.app_id, req.app_secret@) {
            user_refilled(
                old(cacher).user_view(),
                old(cacher).mode(),
                old(cacher).user_hit(req.id),
                stored_user_pair(*repo, req.id, req.app_id),
                req.id,
                req.app_id,
                req.secret@,
            )
        } else {
            old(cacher).user_view()
        },
        consistent(*repo, *old(cacher)) ==> consistent(*repo, *final(cacher)),
{
    verify_app_secret(repo, hasher, cacher, req.app_id, &req.app_secret)?;
    check_user_secret(repo, hasher, cacher, req.id, req.app_id, &req.secret)
}

/// Issues a verification code on each channel given; fails with
/// `MissingContact` when neither is.
pub fn send_verify_code<V: VerifyCodeManager>(
    verify_code_manager: &mut V,
    req: SendVerifyCodeRequest,
) -> (r: Result<(), Error>)
    ensures
        r == Err::<(), Error>(Error::MissingContact) <==> (req.phone is None && req.email is None),
        req.phone is None && req.email is None ==> {
            &&& final(verify_code_manager).phone_codes() == old(verify_code_manager).phone_codes()
            &&& final(verify_code_manager).email_codes() == old(verify_code_manager).email_codes()
        },
        r is Ok && req.phone is Some ==> final(verify_code_manager).phone_codes().contains_key(
            req.phone->0@,
        ),
        req.phone is None ==> final(verify_code_manager).phone_codes() == old(verify_code_manager).phone_codes(),
        r is Ok && req.email is Some ==> final(verify_code_manager).email_codes().contains_key(
            req.email->0@,
        ),
        req.email is None ==> final(verify_code_manager).email_codes() == old(verify_code_manager).email_codes(),
        old(verify_code_manager).delivers_always() && !(req.phone is None && req.email is None)
            ==> r is Ok,
        r is Err ==> final(verify_code_manager).email_codes() == old(
            verify_code_manager,
        ).email_codes(),
{
    if req.phone.is_none() && req.email.is_none() {
        return Err(Error::MissingContact);
    }
    match req.phone {
        Some(phone) => {
            verify_code_manager.send_by_sms(phone)?;
        },
        None => {},
    }
    match req.email {
        Some(email) => {
            verify_code_manager.send_by_email(email)?;
        },
        None => {},
    }
    Ok(())
}

/// Whether `code` is the latest code issued on every channel given.
pub open spec fn codes_accept<V: VerifyCodeManager>(
    codes: V,
    phone: Option<String>,
    email: Option<String>,
    code: Seq<char>,
) -> bool {
    &&& (phone matches Some(p) ==> lookup(codes.phone_codes(), p@) == Some(code))
    &&& (email matches Some(e) ==> lookup(codes.email_codes(), e@) == Some(code))
}

/// The effect of a successful user registration: one user appended under the
/// next id, with the given contacts and app, a digest of the password and of
/// the returned secret; the cache holds the new pair if it is active.
pub open spec fn user_registered(
    r0: MemoryRepository,
    c0: MemoryCacher,
    r1: MemoryRepository,
    c1: MemoryCacher,
    req: RegisterUserRequest,
    resp: RegisterUserResponse,
) -> bool {
    let u = r1.users().last();
    &&& r1.users().len() == r0.users().len() + 1
    &&& r1.users().drop_last() == r0.users()
    &&& r1.apps() == r0.apps()
    &&& resp.id == r0.users().len() + 1
    &&& u.id == resp.id
    &&& u.phone == req.phone
    &&& u.email == req.email
    &&& u.app_id == req.app_id
    &&& password_accepts(u, req.password@)
    &&& pair_accepts(u.secret_view(), resp.secret@)
    &&& app_accepted(r0, c0, req.app_id, req.app_secret@)
    &&& c1.mode() == c0.mode()
    &&& c1.app_view() == refilled(
        c0.app_view(),
        c0.mode(),
        c0.app_hit(req.app_id),
        stored_app_pair(r0, req.app_id),
        req.app_id,
        req.app_secret@,
    )
    &&& c1.user_view() == put_into(
        c0.user_view(),
        c0.mode(),
        resp.id,
        (u.app_id, u.secret_view()),
    )
}

/// Stores a new user, for a registration whose checks have passed: the
/// contacts and app of `req`, the digest of its password under
/// `password_salt`, and the digest of `secret` under `secret_salt`. `secret`
/// is returned in plain text and the cache is given the new pair; a cache
/// failure does not fail the registration. Fails, storing nothing, when no
/// user id is left.
pub fn create_user(
    repo: &mut MemoryRepository,
    hasher: &ShaHasher,
    cacher: &mut MemoryCacher,
    req: RegisterUserRequest,
    secret: String,
    secret_salt: String,
    password_salt: String,
) -> (r: Result<RegisterUserResponse, Error>)
    requires
        old(repo).wf(),
    ensures
        final(repo).wf(),
        final(repo).apps() == old(repo).apps(),
        final(cacher).mode() == old(cacher).mode(),
        final(cacher).app_view() == old(cacher).app_view(),
        r is Ok <==> old(repo).users().len() + 1 < u64::MAX,
        r is Err ==> {
            &&& r matches Err(Error::RepositoryError(_))
            &&& final(repo).users() == old(repo).users()
            &&& final(cacher).user_view() == old(cacher).user_view()
        },
        r matches Ok(resp) ==> {
            let u = final(repo).users().last();
            &&& resp.id == old(repo).users().len() + 1
            &&& resp.secret == secret
            &&& final(repo).users() == old(repo).users().push(u)
            &&& final(repo).users().drop_last() == old(repo).users()
            &&& final(repo).users().len() == old(repo).users().len() + 1
            &&& u.id == resp.id
            &&& u.phone == req.phone
            &&& u.email == req.email
            &&& u.app_id == req.app_id
            &&& u.password is Some
            &&& u.password->0@ == hash_text(req.password@, password_salt@)
            &&& u.password_salt == Some(password_salt)
            &&& u.secret@ == hash_text(secret@, secret_salt@)
            &&& u.secret_salt == secret_salt
            &&& final(cacher).user_view() == put_into(
                old(cacher).user_view(),
                old(cacher).mode(),
                resp.id,
                (req.app_id, u.secret_view()),
            )
        },
        consistent(*old(repo), *old(cacher)) ==> consistent(*final(repo), *final(cacher)),
{
    let hashed_secret = hasher.hash(secret.as_str(), secret_salt.as_str());
    let hashed_password = hasher.hash(req.password.as_str(), password_salt.as_str());
    let mut tx = repo.begin();
    let now = tx.now;
    let id = tx.working.insert_user(
        CreateUser {
            phone: req.phone,
            email: req.email,
            password: Some(hashed_password),
            password_salt: Some(password_salt),
            secret: hashed_secret.clone(),
            secret_salt: secret_salt.clone(),
            app_id: req.app_id,
        },
        now,
    )?;
    repo.commit(tx);
    assert(repo.users().drop_last() =~= old(repo).users());
    let _ = cacher.put_user_secret(
        id,
        CachedUserSecret { app_id: req.app_id, pair: SecretPair { hashed_secret, secret_salt } },
    );
    Ok(RegisterUserResponse { id, secret })
}

/// Registers a user under an app: the app's credential is checked, then the
/// verification code on each channel given; the user is stored with digests
/// of the password and of a fresh secret, which is returned in plain text.
/// Nothing is stored unless every check passes.
pub fn register_user<S: SecretGenerator, V: VerifyCodeManager>(
    repo: &mut MemoryRepository,
    secret_generator: &S,
    verify_code_manager: &V,
    hasher: &ShaHasher,
    cacher: &mut MemoryCacher,
    req: RegisterUserRequest,
) -> (r: Result<RegisterUserResponse, Error>)
    requires
        old(repo).wf(),
    ensures
        final(repo).wf(),
        final(repo).apps() == old(repo).apps(),
        final(cacher).mode() == old(cacher).mode(),
        r is Err ==> final(repo).users() == old(repo).users() && final(cacher).user_view() == old(
            cacher,
        ).user_view(),
        req.phone is None && req.email is None ==> r == Err::<RegisterUserResponse, Error>(
            Error::MissingContact,
        ) && final(cacher).app_view() == old(cacher).app_view(),
        !(req.phone is None && req.email is None) ==> {
            &&& r is Err ==> app_checked(
                *old(repo),
                *old(cacher),
                *final(cacher),
                req.app_id,
                req.app_secret@,
            )
            &&& !app_accepted(*old(repo), *old(cacher), req.app_id, req.app_secret@) ==> r
                == Err::<RegisterUserResponse, Error>(Error::InvalidAppCredential)
            &&& app_accepted(*old(repo), *old(cacher), req.app_id, req.app_secret@) && !codes_accept(
                *verify_code_manager,
                req.phone,
                req.email,
                req.verify_code@,
            ) ==> r == Err::<RegisterUserResponse, Error>(Error::InvalidVerifyCode)
            &&& app_accepted(*old(repo), *old(cacher), req.app_id, req.app_secret@) && codes_accept(
                *verify_code_manager,
                req.phone,
                req.email,
                req.verify_code@,
            ) ==> {
                &&& old(repo).users().len() + 1 < u64::MAX ==> r is Ok
                &&& old(repo).users().len() + 1 >= u64::MAX ==> r matches Err(
                    Error::RepositoryError(_),
                )
            }
        },
        r matches Ok(resp) ==> user_registered(
            *old(repo),
            *old(cacher),
            *final(repo),
            *final(cacher),
            req,
            resp,
        ),
        consistent(*old(repo), *old(cacher)) ==> consistent(*final(repo), *final(cacher)),
        r matches Ok(resp) ==> verify_secret_result(
            *final(repo),
            *final(cacher),
            resp.id,
            resp.secret@,
            req.app_id,
            req.app_secret@,
        ) == Ok::<(), Error>(()),
{
    if req.phone.is_none() && req.email.is_none() {
        return Err(Error::MissingContact);
    }
    verify_app_secret(repo, hasher, cacher, req.app_id, &req.app_secret)?;
    match &req.phone {
        Some(phone) => {
            verify_code_manager.verify_sms_code(phone, &req.verify_code)?;
        },
        None => {},
    }
    match &req.email {
        Some(email) => {
            verify_code_manager.verify_email_code(email, &req.verify_code)?;
        },
        None => {},
    }
    let secret = secret_generator.generate_secret();
    let secret_salt = hasher.generate_salt();
    let password_salt = hasher.generate_salt();
    create_user(repo, hasher, cacher, req, secret, secret_salt, password_salt)
}

/// The query by which a login finds its user: the contacts given, within the
/// app.
pub open spec fn login_query(req: LoginRequest) -> QueryUser {
    QueryUser {
        id_eq: None,
        phone_eq: req.phone,
        email_eq: req.email,
        app_id_eq: Some(req.app_id),
    }
}

/// Whether some user matches `q`.
pub open spec fn has_user_match(users: Seq<User>, q: QueryUser) -> bool {
    exists|i: int| is_first_user_match(users, q, i)
}

/// The position of the first user that `q` matches.
pub open spec fn first_user_index(users: Seq<User>, q: QueryUser) -> int {
    choose|i: int| is_first_user_match(users, q, i)
}

/// Whether a login of `req` finds a user whose password it gives.
pub open spec fn login_accepts(repo: MemoryRepository, req: LoginRequest) -> bool {
    let q = login_query(req);
    &&& has_user_match(repo.users(), q)
    &&& password_accepts(repo.users()[first_user_index(repo.users(), q)], req.password@)
}

/// The effect of a successful login: the user found has a new secret pair,
/// which accepts the returned secret and refused it before; nothing else
/// stored changes, and the cache holds the new pair if it is active.
pub open spec fn login_rotated(
    r0: MemoryRepository,
    c0: MemoryCacher,
    r1: MemoryRepository,
    c1: MemoryCacher,
    req: LoginRequest,
    resp: LoginResponse,
) -> bool {
    let i = first_user_index(r0.users(), login_query(req));
    let u0 = r0.users()[i];
    let u1 = r1.users()[i];
    &&& app_accepted(r0, c0, req.app_id, req.app_secret@)
    &&& login_accepts(r0, req)
    &&& resp.id == u0.id
    &&& r1.apps() == r0.apps()
    &&& r1.users().len() == r0.users().len()
    &&& forall|j: int| 0 <= j < r0.users().len() && j != i ==> #[trigger] r1.users()[j] == r0.users()[j]
    &&& same_but_secret(u0, u1)
    &&& pair_accepts(u1.secret_view(), resp.secret@)
    &&& !pair_accepts(u0.secret_view(), resp.secret@)
    &&& c1.mode() == c0.mode()
    &&& c1.app_view() == refilled(
        c0.app_view(),
        c0.mode(),
        c0.app_hit(req.app_id),
        stored_app_pair(r0, req.app_id),
        req.app_id,
        req.app_secret@,
    )
    &&& c1.user_view() == put_into(
        c0.user_view(),
        c0.mode(),
        resp.id,
        (u0.app_id, u1.secret_view()),
    )
}

proof fn lemma_first_match_unique(users: Seq<User>, q: QueryUser, i: int, k: int)
    requires
        is_first_user_match(users, q, i),
        is_first_user_match(users, q, k),
    ensures
        i == k,
{
    if i < k {
        assert(!q.matches(users[i]));
    } else if k < i {
        assert(!q.matches(users[k]));
    }
}

/// Ends a secret rotation whose update reported `affected` rows: on exactly
/// one, commits the transaction and writes the new pair to the cache (a cache
/// failure is ignored); otherwise fails with `SecretRotationFailed`, drops
/// the transaction, and leaves the store and the cache as they were.
pub fn complete_rotation(
    repo: &mut MemoryRepository,
    tx: Transaction,
    cacher: &mut MemoryCacher,
    id: u64,
    affected: u64,
    entry: CachedUserSecret,
) -> (r: Result<(), Error>)
    ensures
        affected != 1 ==> {
            &&& r == Err::<(), Error>(Error::SecretRotationFailed)
            &&& *final(repo) == *old(repo)
            &&& *final(cacher) == *old(cacher)
        },
        affected == 1 ==> {
            &&& r is Ok
            &&& final(repo).apps() == tx.working.apps()
            &&& final(repo).users() == tx.working.users()
            &&& final(cacher).mode() == old(cacher).mode()
            &&& final(cacher).app_view() == old(cacher).app_view()
            &&& final(cacher).user_view() == put_into(
                old(cacher).user_view(),
                old(cacher).mode(),
                id,
                entry@,
            )
        },
{
    if affected != 1 {
        return Err(Error::SecretRotationFailed);
    }
    repo.commit(tx);
    let _ = cacher.put_user_secret(id, entry);
    Ok(())
}

/// Rotates the secret of the stored user `user`, within `tx`, to `secret`
/// under the salt `salt`. Fails with `SecretRotationFailed`, leaving the store
/// and the cache as they were, when the user's current pair already accepts
/// `secret`: a rotation never hands out the secret it replaces. Otherwise the
/// new pair replaces the old one wholesale, the transaction is committed, the
/// pair is written to the cache (a cache failure is ignored), and `secret` is
/// returned.
pub fn rotate_secret(
    repo: &mut MemoryRepository,
    tx: Transaction,
    cacher: &mut MemoryCacher,
    hasher: &ShaHasher,
    user: User,
    secret: String,
    salt: String,
) -> (r: Result<LoginResponse, Error>)
    requires
        tx.working.wf(),
        1 <= user.id <= tx.working.users().len(),
        tx.working.users()[user.id - 1] == user,
    ensures
        r is Ok || r == Err::<LoginResponse, Error>(Error::SecretRotationFailed),
        r == Err::<LoginResponse, Error>(Error::SecretRotationFailed) <==> pair_accepts(
            user.secret_view(),
            secret@,
        ),
        r is Err ==> *final(repo) == *old(repo) && *final(cacher) == *old(cacher),
        r matches Ok(resp) ==> {
            let i = user.id - 1;
            let u1 = final(repo).users()[i];
            &&& final(repo).wf()
            &&& resp.id == user.id
            &&& resp.secret@ == secret@
            &&& final(repo).apps() == tx.working.apps()
            &&& final(repo).users().len() == tx.working.users().len()
            &&& forall|j: int|
                0 <= j < tx.working.users().len() && j != i ==> #[trigger] final(repo).users()[j]
                    == tx.working.users()[j]
            &&& same_but_secret(user, u1)
            &&& u1.secret_view() == (hash_text(secret@, salt@), salt@)
            &&& final(cacher).mode() == old(cacher).mode()
            &&& final(cacher).app_view() == old(cacher).app_view()
            &&& final(cacher).user_view() == put_into(
                old(cacher).user_view(),
                old(cacher).mode(),
                user.id,
                (user.app_id, u1.secret_view()),
            )
        },
{
    let mut tx = tx;
    if hasher.hash(secret.as_str(), user.secret_salt.as_str()) == user.secret {
        return Err(Error::SecretRotationFailed);
    }
    let hashed_secret = hasher.hash(secret.as_str(), salt.as_str());
    let by_id = QueryUser { id_eq: Some(user.id), phone_eq: None, email_eq: None, app_id_eq: None };
    let update = UpdateUser { secret: Some(hashed_secret.clone()), secret_salt: Some(salt.clone()) };
    let now = tx.now;
    let ghost before = tx.working.users();
    proof {
        lemma_count_id_query(before, by_id, user.id);
    }
    let affected = tx.working.update_user(&by_id, &update, now);
    proof {
        assert forall|j: int| 0 <= j < before.len() && j != user.id - 1 implies #[trigger] tx.working.users()[j] == before[j] by {
            assert(before[j].id == j + 1);
        }
    }
    let entry = CachedUserSecret {
        app_id: user.app_id,
        pair: SecretPair { hashed_secret, secret_salt: salt },
    };
    complete_rotation(repo, tx, cacher, user.id, affected, entry)?;
    Ok(LoginResponse { id: user.id, secret })
}

/// Logs a user in by contact and password within an app, and rotates the
/// user's secret: a fresh secret replaces the stored pair wholesale, in the
/// store and then in the cache, and is returned in plain text. An unknown
/// user, a passwordless account and a wrong password all fail with
/// `InvalidCredential`.
pub fn login<S: SecretGenerator>(
    repo: &mut MemoryRepository,
    secret_generator: &S,
    hasher: &ShaHasher,
    cacher: &mut MemoryCacher,
    req: LoginRequest,
) -> (r: Result<LoginResponse, Error>)
    requires
        old(repo).wf(),
    ensures
        final(repo).wf(),
        final(repo).apps() == old(repo).apps(),
        final(cacher).mode() == old(cacher).mode(),
        r is Err ==> final(repo).users() == old(repo).users() && final(cacher).user_view() == old(
            cacher,
        ).user_view(),
        req.phone is None && req.email is None ==> r == Err::<LoginResponse, Error>(
            Error::MissingContact,
        ) && final(cacher).app_view() == old(cacher).app_view(),
        !(req.phone is None && req.email is None) ==> {
            &&& r is Err ==> app_checked(
                *old(repo),
                *old(cacher),
                *final(cacher),
                req.app_id,
                req.app_secret@,
            )
            &&& !app_accepted(*old(repo), *old(cacher), req.app_id, req.app_secret@) ==> r
                == Err::<LoginResponse, Error>(Error::InvalidAppCredential)
            &&& app_accepted(*old(repo), *old(cacher), req.app_id, req.app_secret@)
                && !login_accepts(*old(repo), req) ==> r == Err::<LoginResponse, Error>(
                Error::InvalidCredential,
            )
            &&& app_accepted(*old(repo), *old(cacher), req.app_id, req.app_secret@)
                && login_accepts(*old(repo), req) ==> r is Ok || r == Err::<LoginResponse, Error>(
                Error::SecretRotationFailed,
            )
        },
        r matches Ok(resp) ==> login_rotated(
            *old(repo),
            *old(cacher),
            *final(repo),
            *final(cacher),
            req,
            resp,
        ),
        consistent(*old(repo), *old(cacher)) ==> consistent(*final(repo), *final(cacher)),
        r matches Ok(resp) ==> verify_secret_result(
            *final(repo),
            *final(cacher),
            resp.id,
            resp.secret@,
            req.app_id,
            req.app_secret@,
        ) == Ok::<(), Error>(()),
{
    if req.phone.is_none() && req.email.is_none() {
        return Err(Error::MissingContact);
    }
    verify_app_secret(repo, hasher, cacher, req.app_id, &req.app_secret)?;
    let ghost c_mid = *cacher;
    let ghost q = login_query(req);
    let mut tx = repo.begin();
    let query = QueryUser {
        id_eq: None,
        phone_eq: req.phone,
        email_eq: req.email,
        app_id_eq: Some(req.app_id),
    };
    assert(query == q);
    let user = match tx.working.fetch_user(&query) {
        Some(u) => u,
        None => {
            return Err(Error::InvalidCredential);
        },
    };
    let ghost k = choose|k: int| is_first_user_match(tx.working.users(), q, k) && user == #[trigger] tx.working.users()[k];
    proof {
        let i = first_user_index(old(repo).users(), q);
        lemma_first_match_unique(old(repo).users(), q, i, k);
    }
    let (password, password_salt) = match (&user.password, &user.password_salt) {
        (Some(p), Some(s)) => (p, s),
        _ => {
            return Err(Error::InvalidCredential);
        },
    };
    if !(hasher.hash(req.password.as_str(), password_salt.as_str()) == *password) {
        return Err(Error::InvalidCredential);
    }
    proof {
        assert(user.id == k + 1);
    }
    let secret = secret_generator.generate_secret();
    let salt = hasher.generate_salt();
    rotate_secret(repo, tx, cacher, hasher, user, secret, salt)
}

} // verus!
