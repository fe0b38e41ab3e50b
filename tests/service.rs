use credential_service::cacher::{CacheMode, CachedUserSecret, MemoryCacher};
use credential_service::error::Error;
use credential_service::hasher::ShaHasher;
use credential_service::repository::MemoryRepository;
use credential_service::secret_generator::{RandomSecretGenerator, SecretGenerator};
use credential_service::services::{
    complete_rotation, create_app, create_user, login, rotate_secret, register_app, register_user, send_verify_code, verify_app_secret,
    verify_secret, LoginRequest, RegisterAppRequest, RegisterUserRequest, SendVerifyCodeRequest,
    VerifySecretRequest,
};
use credential_service::models::{CreateUser, QueryUser, SecretPair};
use credential_service::verify_code::FakeVerifyCodeManager;

struct World {
    repo: MemoryRepository,
    cacher: MemoryCacher,
    codes: FakeVerifyCodeManager,
    generator: RandomSecretGenerator,
    hasher: ShaHasher,
}

fn world(mode: CacheMode) -> World {
    World {
        repo: MemoryRepository::new(),
        cacher: MemoryCacher::with_mode(mode),
        codes: FakeVerifyCodeManager::new(),
        generator: RandomSecretGenerator::new(),
        hasher: ShaHasher::new(),
    }
}

fn add_app(w: &mut World, name: &str) -> (u64, String) {
    let resp = register_app(
        &mut w.repo,
        &w.generator,
        &w.hasher,
        &mut w.cacher,
        RegisterAppRequest { name: name.to_string() },
    )
    .expect("app registration");
    assert_eq!(resp.name, name);
    (resp.id, resp.secret)
}

fn add_user(w: &mut World, phone: &str, password: &str, app_id: u64, app_secret: &str) -> (u64, String) {
    send_verify_code(
        &mut w.codes,
        SendVerifyCodeRequest { phone: Some(phone.to_string()), email: None },
    )
    .expect("code sent");
    let code = w.codes.sms_code(&phone.to_string()).expect("code issued");
    let resp = register_user(
        &mut w.repo,
        &w.generator,
        &w.codes,
        &w.hasher,
        &mut w.cacher,
        RegisterUserRequest {
            phone: Some(phone.to_string()),
            email: None,
            password: password.to_string(),
            verify_code: code,
            app_id,
            app_secret: app_secret.to_string(),
        },
    )
    .expect("user registration");
    (resp.id, resp.secret)
}

fn verify(w: &mut World, id: u64, secret: &str, app_id: u64, app_secret: &str) -> Result<(), Error> {
    verify_secret(
        &w.repo,
        &w.hasher,
        &mut w.cacher,
        VerifySecretRequest {
            id,
            secret: secret.to_string(),
            app_id,
            app_secret: app_secret.to_string(),
        },
    )
}

fn log_in(w: &mut World, phone: &str, password: &str, app_id: u64, app_secret: &str) -> Result<(u64, String), Error> {
    login(
        &mut w.repo,
        &w.generator,
        &w.hasher,
        &mut w.cacher,
        LoginRequest {
            phone: Some(phone.to_string()),
            email: None,
            password: password.to_string(),
            app_id,
            app_secret: app_secret.to_string(),
        },
    )
    .map(|r| (r.id, r.secret))
}

#[test]
fn acme_example_rotates_user_secret() {
    let mut w = world(CacheMode::Active);
    let (app_id, s0) = add_app(&mut w, "acme");
    let (uid, u0) = add_user(&mut w, "+1555", "pw", app_id, &s0);
    assert_eq!(verify(&mut w, uid, &u0, app_id, &s0), Ok(()));
    let (lid, u1) = log_in(&mut w, "+1555", "pw", app_id, &s0).expect("login");
    assert_eq!(lid, uid);
    assert_ne!(u1, u0);
    assert_eq!(verify(&mut w, uid, &u0, app_id, &s0), Err(Error::InvalidCredential));
    assert_eq!(verify(&mut w, uid, &u1, app_id, &s0), Ok(()));
}

#[test]
fn latest_secret_verifies_after_each_login_in_every_cache_mode() {
    for mode in [CacheMode::Active, CacheMode::Bypass, CacheMode::Broken] {
        let mut w = world(mode);
        let (app_id, s0) = add_app(&mut w, "acme");
        let (uid, first) = add_user(&mut w, "+1555", "pw", app_id, &s0);
        assert_eq!(verify(&mut w, uid, &first, app_id, &s0), Ok(()));
        let mut previous = vec![first];
        for _ in 0..3 {
            let (id, latest) = log_in(&mut w, "+1555", "pw", app_id, &s0).expect("login");
            assert_eq!(id, uid);
            assert_eq!(verify(&mut w, uid, &latest, app_id, &s0), Ok(()));
            for old in &previous {
                assert_ne!(old, &latest);
                assert_eq!(verify(&mut w, uid, old, app_id, &s0), Err(Error::InvalidCredential));
            }
            previous.push(latest);
        }
    }
}

#[test]
fn consecutive_logins_return_different_secrets() {
    let mut w = world(CacheMode::Active);
    let (app_id, s0) = add_app(&mut w, "acme");
    add_user(&mut w, "+1555", "pw", app_id, &s0);
    let (_, a) = log_in(&mut w, "+1555", "pw", app_id, &s0).expect("login");
    let (_, b) = log_in(&mut w, "+1555", "pw", app_id, &s0).expect("login");
    assert_ne!(a, b);
}

#[test]
fn user_failures_share_one_kind() {
    let mut w = world(CacheMode::Bypass);
    let (app_a, sa) = add_app(&mut w, "a");
    let (app_b, sb) = add_app(&mut w, "b");
    let (uid, secret) = add_user(&mut w, "+1555", "pw", app_a, &sa);
    let unknown = verify(&mut w, 99, &secret, app_a, &sa);
    let foreign = verify(&mut w, uid, &secret, app_b, &sb);
    let wrong = verify(&mut w, uid, "not the secret", app_a, &sa);
    assert_eq!(unknown, Err(Error::InvalidCredential));
    assert_eq!(foreign, Err(Error::InvalidCredential));
    assert_eq!(wrong, Err(Error::InvalidCredential));
    assert_eq!(log_in(&mut w, "+1999", "pw", app_a, &sa), Err(Error::InvalidCredential));
    assert_eq!(log_in(&mut w, "+1555", "bad", app_a, &sa), Err(Error::InvalidCredential));
    assert_eq!(log_in(&mut w, "+1555", "pw", app_b, &sb), Err(Error::InvalidCredential));
}

#[test]
fn app_failures_share_one_kind() {
    let mut w = world(CacheMode::Active);
    let (app_id, secret) = add_app(&mut w, "acme");
    let mut fresh = MemoryCacher::new();
    assert_eq!(
        verify_app_secret(&w.repo, &w.hasher, &mut fresh, 42, &secret),
        Err(Error::InvalidAppCredential)
    );
    assert_eq!(
        verify_app_secret(&w.repo, &w.hasher, &mut fresh, app_id, &"wrong".to_string()),
        Err(Error::InvalidAppCredential)
    );
    assert_eq!(
        verify_app_secret(&w.repo, &w.hasher, &mut w.cacher, app_id, &"wrong".to_string()),
        Err(Error::InvalidAppCredential)
    );
    assert_eq!(verify_app_secret(&w.repo, &w.hasher, &mut fresh, app_id, &secret), Ok(()));
    assert_eq!(verify(&mut w, 1, "x", 42, &secret), Err(Error::InvalidAppCredential));
    assert_eq!(
        log_in(&mut w, "+1555", "pw", app_id, "wrong"),
        Err(Error::InvalidAppCredential)
    );
}

#[test]
fn login_without_password_is_invalid_credential() {
    let mut w = world(CacheMode::Active);
    let (app_id, s0) = add_app(&mut w, "acme");
    let mut tx = w.repo.begin();
    let now = tx.now;
    tx.working
        .insert_user(
            CreateUser {
                phone: Some("+1777".to_string()),
                email: None,
                password_salt: None,
                password: None,
                secret: "digest".to_string(),
                secret_salt: "salt".to_string(),
                app_id,
            },
            now,
        )
        .expect("insert");
    w.repo.commit(tx);
    assert_eq!(log_in(&mut w, "+1777", "", app_id, &s0), Err(Error::InvalidCredential));
}

#[test]
fn disabled_or_failing_cache_gives_same_outcomes() {
    let mut w = world(CacheMode::Active);
    let (app_id, s0) = add_app(&mut w, "acme");
    let (uid, u0) = add_user(&mut w, "+1555", "pw", app_id, &s0);
    let cases: Vec<(u64, String, u64, String)> = vec![
        (uid, u0.clone(), app_id, s0.clone()),
        (uid, "wrong".to_string(), app_id, s0.clone()),
        (uid + 5, u0.clone(), app_id, s0.clone()),
        (uid, u0.clone(), app_id, "wrong".to_string()),
        (uid, u0.clone(), app_id + 3, s0.clone()),
    ];
    for (id, secret, a, asecret) in cases {
        let with_cache = verify(&mut w, id, &secret, a, &asecret);
        for mode in [CacheMode::Bypass, CacheMode::Broken] {
            let mut other = MemoryCacher::with_mode(mode);
            let without = verify_secret(
                &w.repo,
                &w.hasher,
                &mut other,
                VerifySecretRequest { id, secret: secret.clone(), app_id: a, app_secret: asecret.clone() },
            );
            assert_eq!(with_cache, without);
        }
    }
}

#[test]
fn failed_rotation_changes_nothing() {
    let mut w = world(CacheMode::Active);
    let (app_id, s0) = add_app(&mut w, "acme");
    let (uid, u0) = add_user(&mut w, "+1555", "pw", app_id, &s0);
    for affected in [0u64, 2u64] {
        let tx = w.repo.begin();
        let entry = CachedUserSecret {
            app_id,
            pair: SecretPair { hashed_secret: "h".to_string(), secret_salt: "s".to_string() },
        };
        let r = complete_rotation(&mut w.repo, tx, &mut w.cacher, uid, affected, entry);
        assert_eq!(r, Err(Error::SecretRotationFailed));
        assert_eq!(
            w.cacher.get_user_secret(uid).unwrap().map(|e| e.pair.secret_salt == "s"),
            Some(false)
        );
        assert_eq!(verify(&mut w, uid, &u0, app_id, &s0), Ok(()));
    }
    let tx = w.repo.begin();
    let entry = CachedUserSecret {
        app_id,
        pair: SecretPair { hashed_secret: "h".to_string(), secret_salt: "s".to_string() },
    };
    assert_eq!(complete_rotation(&mut w.repo, tx, &mut w.cacher, uid, 1, entry.clone()), Ok(()));
    assert_eq!(w.cacher.get_user_secret(uid), Ok(Some(entry)));
}

#[test]
fn missing_contact_is_refused() {
    let mut w = world(CacheMode::Active);
    let (app_id, s0) = add_app(&mut w, "acme");
    assert_eq!(
        send_verify_code(&mut w.codes, SendVerifyCodeRequest { phone: None, email: None }),
        Err(Error::MissingContact)
    );
    let r = register_user(
        &mut w.repo,
        &w.generator,
        &w.codes,
        &w.hasher,
        &mut w.cacher,
        RegisterUserRequest {
            phone: None,
            email: None,
            password: "pw".to_string(),
            verify_code: "code".to_string(),
            app_id,
            app_secret: s0.clone(),
        },
    );
    assert_eq!(r.err(), Some(Error::MissingContact));
    let r = login(
        &mut w.repo,
        &w.generator,
        &w.hasher,
        &mut w.cacher,
        LoginRequest { phone: None, email: None, password: "pw".to_string(), app_id, app_secret: s0 },
    );
    assert_eq!(r.err(), Some(Error::MissingContact));
}

#[test]
fn wrong_verify_code_is_refused_and_stores_nothing() {
    let mut w = world(CacheMode::Active);
    let (app_id, s0) = add_app(&mut w, "acme");
    send_verify_code(
        &mut w.codes,
        SendVerifyCodeRequest { phone: None, email: Some("a@b.c".to_string()) },
    )
    .unwrap();
    let code = w.codes.email_code(&"a@b.c".to_string()).unwrap();
    let bad = if code == "000000" { "111111" } else { "000000" };
    let r = register_user(
        &mut w.repo,
        &w.generator,
        &w.codes,
        &w.hasher,
        &mut w.cacher,
        RegisterUserRequest {
            phone: None,
            email: Some("a@b.c".to_string()),
            password: "pw".to_string(),
            verify_code: bad.to_string(),
            app_id,
            app_secret: s0.clone(),
        },
    );
    assert_eq!(r.err(), Some(Error::InvalidVerifyCode));
    let r = register_user(
        &mut w.repo,
        &w.generator,
        &w.codes,
        &w.hasher,
        &mut w.cacher,
        RegisterUserRequest {
            phone: None,
            email: Some("a@b.c".to_string()),
            password: "pw".to_string(),
            verify_code: code,
            app_id,
            app_secret: s0,
        },
    )
    .expect("registration");
    assert_eq!(r.id, 1);
}

#[test]
fn registration_ids_are_sequential() {
    let mut w = world(CacheMode::Active);
    let (a1, _) = add_app(&mut w, "one");
    let (a2, s2) = add_app(&mut w, "two");
    assert_eq!((a1, a2), (1, 2));
    let (u1, _) = add_user(&mut w, "+1", "pw", a2, &s2);
    let (u2, _) = add_user(&mut w, "+2", "pw", a2, &s2);
    assert_eq!((u1, u2), (1, 2));
}

struct FixedSecretGenerator;

impl SecretGenerator for FixedSecretGenerator {
    fn generate_secret(&self) -> String {
        "always the same".to_string()
    }
}

#[test]
fn login_refuses_to_reissue_the_current_secret() {
    let mut w = world(CacheMode::Active);
    let fixed = FixedSecretGenerator;
    let app = register_app(
        &mut w.repo,
        &fixed,
        &w.hasher,
        &mut w.cacher,
        RegisterAppRequest { name: "acme".to_string() },
    )
    .unwrap();
    assert_eq!(app.secret, "always the same");
    let (uid, u0) = add_user(&mut w, "+1555", "pw", app.id, &app.secret);
    let first = login(
        &mut w.repo,
        &fixed,
        &w.hasher,
        &mut w.cacher,
        LoginRequest {
            phone: Some("+1555".to_string()),
            email: None,
            password: "pw".to_string(),
            app_id: app.id,
            app_secret: app.secret.clone(),
        },
    )
    .expect("first login");
    assert_eq!(first.secret, "always the same");
    assert_eq!(verify(&mut w, uid, &u0, app.id, &app.secret), Err(Error::InvalidCredential));
    let second = login(
        &mut w.repo,
        &fixed,
        &w.hasher,
        &mut w.cacher,
        LoginRequest {
            phone: Some("+1555".to_string()),
            email: None,
            password: "pw".to_string(),
            app_id: app.id,
            app_secret: app.secret.clone(),
        },
    );
    assert_eq!(second.err(), Some(Error::SecretRotationFailed));
    assert_eq!(verify(&mut w, uid, "always the same", app.id, &app.secret), Ok(()));
}

#[test]
fn rotation_takes_the_given_secret_unless_it_is_current() {
    let mut w = world(CacheMode::Active);
    let (app_id, s0) = add_app(&mut w, "acme");
    let (uid, u0) = add_user(&mut w, "+1555", "pw", app_id, &s0);
    let by_id = QueryUser { id_eq: Some(uid), ..Default::default() };
    let user = w.repo.fetch_user(&by_id).unwrap();
    let tx = w.repo.begin();
    let r = rotate_secret(&mut w.repo, tx, &mut w.cacher, &w.hasher, user, u0.clone(), "salt2".to_string());
    assert_eq!(r.err(), Some(Error::SecretRotationFailed));
    assert_eq!(verify(&mut w, uid, &u0, app_id, &s0), Ok(()));
    let user = w.repo.fetch_user(&by_id).unwrap();
    let tx = w.repo.begin();
    let r = rotate_secret(&mut w.repo, tx, &mut w.cacher, &w.hasher, user, "next".to_string(), "salt2".to_string())
        .expect("rotation");
    assert_eq!((r.id, r.secret.as_str()), (uid, "next"));
    let stored = w.repo.fetch_user(&by_id).unwrap();
    assert_eq!(stored.secret_salt, "salt2");
    assert_eq!(stored.secret, w.hasher.hash("next", "salt2"));
    assert_eq!(verify(&mut w, uid, "next", app_id, &s0), Ok(()));
    assert_eq!(verify(&mut w, uid, &u0, app_id, &s0), Err(Error::InvalidCredential));
}

#[test]
fn cached_user_is_refused_under_another_app() {
    for mode in [CacheMode::Active, CacheMode::Bypass, CacheMode::Broken] {
        let mut w = world(mode);
        let (app_a, sa) = add_app(&mut w, "a");
        let (app_b, sb) = add_app(&mut w, "b");
        let (uid, secret) = add_user(&mut w, "+1555", "pw", app_b, &sb);
        assert_eq!(verify(&mut w, uid, &secret, app_b, &sb), Ok(()));
        assert_eq!(verify(&mut w, uid, &secret, app_a, &sa), Err(Error::InvalidCredential));
        assert_eq!(verify(&mut w, uid, &secret, app_b, &sb), Ok(()));
    }
}

#[test]
fn consistent_cache_matches_disabled_cache_across_apps() {
    let mut w = world(CacheMode::Active);
    let (app_a, sa) = add_app(&mut w, "a");
    let (app_b, sb) = add_app(&mut w, "b");
    let (ua, secret_a) = add_user(&mut w, "+1", "pw", app_a, &sa);
    let (ub, secret_b) = add_user(&mut w, "+2", "pw", app_b, &sb);
    let cases = vec![
        (ua, secret_a.clone(), app_a, sa.clone()),
        (ua, secret_a.clone(), app_b, sb.clone()),
        (ub, secret_b.clone(), app_a, sa.clone()),
        (ub, secret_b.clone(), app_b, sb.clone()),
        (ub, secret_a.clone(), app_b, sb.clone()),
    ];
    for (id, secret, app, app_secret) in cases {
        let cached = verify(&mut w, id, &secret, app, &app_secret);
        let mut off = MemoryCacher::with_mode(CacheMode::Bypass);
        let uncached = verify_secret(
            &w.repo,
            &w.hasher,
            &mut off,
            VerifySecretRequest { id, secret: secret.clone(), app_id: app, app_secret: app_secret.clone() },
        );
        assert_eq!(cached, uncached);
    }
}

#[test]
fn create_functions_store_the_given_secrets() {
    let mut w = world(CacheMode::Active);
    let app = create_app(
        &mut w.repo,
        &w.hasher,
        &mut w.cacher,
        "acme".to_string(),
        "S0".to_string(),
        "salt0".to_string(),
    )
    .unwrap();
    assert_eq!((app.id, app.name.as_str(), app.secret.as_str()), (1, "acme", "S0"));
    let user = create_user(
        &mut w.repo,
        &w.hasher,
        &mut w.cacher,
        RegisterUserRequest {
            phone: Some("+1555".to_string()),
            email: None,
            password: "pw".to_string(),
            verify_code: String::new(),
            app_id: app.id,
            app_secret: "S0".to_string(),
        },
        "U0".to_string(),
        "salt1".to_string(),
        "salt2".to_string(),
    )
    .unwrap();
    assert_eq!((user.id, user.secret.as_str()), (1, "U0"));
    let stored = w.repo.fetch_user(&QueryUser { id_eq: Some(1), ..Default::default() }).unwrap();
    assert_eq!(stored.secret, w.hasher.hash("U0", "salt1"));
    assert_eq!(stored.secret_salt, "salt1");
    assert_eq!(stored.password, Some(w.hasher.hash("pw", "salt2")));
    assert_eq!(stored.password_salt, Some("salt2".to_string()));
    assert_eq!(verify(&mut w, 1, "U0", 1, "S0"), Ok(()));
    let mut off = MemoryCacher::with_mode(CacheMode::Bypass);
    assert_eq!(
        verify_secret(
            &w.repo,
            &w.hasher,
            &mut off,
            VerifySecretRequest { id: 1, secret: "U0".to_string(), app_id: 1, app_secret: "S0".to_string() },
        ),
        Ok(())
    );
}
