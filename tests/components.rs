use credential_service::cacher::{CacheMode, CachedUserSecret, MemoryCacher};
use credential_service::error::Error;
use credential_service::hasher::ShaHasher;
use credential_service::models::{QueryUser, SecretPair, UpdateUser, CreateUser};
use credential_service::repository::MemoryRepository;
use credential_service::verify_code::{
    CodeEntry, FakeVerifyCodeManager, FakeVerifyCodeManagerFactory, VerifyCodeManager,
};

fn pair() -> SecretPair {
    SecretPair { hashed_secret: "test_secret".to_string(), secret_salt: "test_salt".to_string() }
}

#[test]
fn put_and_get_app_secret() {
    let mut cacher = MemoryCacher::new();
    cacher.put_app_secret(7, pair()).expect("failed to put app secret");
    assert_eq!(
        cacher.get_app_secret(7).expect("failed to get app secret").expect("app secret not found"),
        pair()
    );
}

#[test]
fn put_and_get_user_secret() {
    let mut cacher = MemoryCacher::new();
    let entry = CachedUserSecret { app_id: 3, pair: pair() };
    cacher.put_user_secret(7, entry.clone()).expect("failed to put user secret");
    assert_eq!(
        cacher.get_user_secret(7).expect("failed to get user secret").expect("user secret not found"),
        entry
    );
}

#[test]
fn cache_modes() {
    let mut bypass = MemoryCacher::with_mode(CacheMode::Bypass);
    assert_eq!(bypass.put_app_secret(1, pair()), Ok(()));
    assert_eq!(bypass.get_app_secret(1), Ok(None));
    let mut broken = MemoryCacher::with_mode(CacheMode::Broken);
    assert!(matches!(broken.put_user_secret(1, CachedUserSecret { app_id: 1, pair: pair() }), Err(Error::CacherError(_))));
    assert!(matches!(broken.get_user_secret(1), Err(Error::CacherError(_))));
    let mut active = MemoryCacher::new();
    active.put_app_secret(1, pair()).unwrap();
    active.delete_app_secret(1).unwrap();
    assert_eq!(active.get_app_secret(1), Ok(None));
    assert_eq!(active.get_mode(), CacheMode::Active);
}

#[test]
fn hash_is_sha384_hex_of_content_then_salt() {
    let h = ShaHasher::new();
    assert_eq!(
        h.hash("", ""),
        "38b060a751ac96384cd9327eb1b1e36a21fdb71114be07434c0cc7bf63f6e1da274edebfe76f65fbd51ad2f14898b95b"
    );
    assert_eq!(h.hash("ab", "c"), h.hash("a", "bc"));
    assert_ne!(h.hash("ab", "c"), h.hash("ab", "d"));
    assert_eq!(h.hash("pw", "salt").len(), 96);
    assert_ne!(h.generate_salt(), h.generate_salt());
}

#[test]
fn verify_codes_latest_wins() {
    let mut m = FakeVerifyCodeManager::new();
    let phone = "+1555".to_string();
    assert_eq!(m.verify_sms_code(&phone, &"abc".to_string()), Err(Error::InvalidVerifyCode));
    m.send_by_sms(phone.clone()).unwrap();
    let first = m.sms_code(&phone).unwrap();
    assert_eq!(first.len(), 6);
    assert_eq!(m.verify_sms_code(&phone, &first), Ok(()));
    m.send_by_sms(phone.clone()).unwrap();
    let second = m.sms_code(&phone).unwrap();
    assert_eq!(m.verify_sms_code(&phone, &second), Ok(()));
    if first != second {
        assert_eq!(m.verify_sms_code(&phone, &first), Err(Error::InvalidVerifyCode));
    }
    assert_eq!(m.email_code(&phone), None);
}

#[test]
fn repository_queries_and_updates() {
    let repo0 = MemoryRepository::new();
    let mut tx = repo0.begin();
    let now = tx.now;
    for (phone, app) in [("+1", 1u64), ("+2", 1u64), ("+1", 2u64)] {
        tx.working
            .insert_user(
                CreateUser {
                    phone: Some(phone.to_string()),
                    email: None,
                    password_salt: None,
                    password: None,
                    secret: "s".to_string(),
                    secret_salt: "t".to_string(),
                    app_id: app,
                },
                now,
            )
            .unwrap();
    }
    let q = QueryUser { phone_eq: Some("+1".to_string()), ..Default::default() };
    assert_eq!(tx.working.fetch_user(&q).map(|u| u.id), Some(1));
    let q2 = QueryUser { phone_eq: Some("+1".to_string()), app_id_eq: Some(2), ..Default::default() };
    assert_eq!(tx.working.fetch_user(&q2).map(|u| u.id), Some(3));
    let update = UpdateUser { secret: Some("new".to_string()), secret_salt: None };
    assert_eq!(tx.working.update_user(&q, &update, now), 2);
    assert_eq!(tx.working.update_user(&QueryUser::default(), &UpdateUser::default(), now), 3);
    let u = tx.working.fetch_user(&q2).unwrap();
    assert_eq!((u.secret.as_str(), u.secret_salt.as_str()), ("new", "t"));
    let mut repo = MemoryRepository::new();
    assert!(repo.fetch_user(&QueryUser::default()).is_none());
    repo.commit(tx);
    assert!(repo.fetch_user(&QueryUser::default()).is_some());
}

#[test]
fn error_messages() {
    assert_eq!(Error::RepositoryError("disk".to_string()).message(), "disk");
    assert_eq!(Error::CacherError("down".to_string()).message(), "down");
    assert_ne!(Error::InvalidCredential.message(), Error::InvalidAppCredential.message());
}

#[test]
fn factory_managers_share_codes() {
    let mut factory = FakeVerifyCodeManagerFactory::new(
        Vec::new(),
        vec![CodeEntry { target: "+1".to_string(), code: "123456".to_string() }],
    );
    let m = factory.new_verify_code_manager();
    assert_eq!(m.verify_sms_code(&"+1".to_string(), &"123456".to_string()), Ok(()));
    m.send_by_email("a@b.c".to_string()).unwrap();
    let code = m.email_code(&"a@b.c".to_string()).unwrap();
    assert_eq!(code.len(), 6);
    assert!(code.chars().all(|c| c.is_ascii_alphanumeric()));
    let again = factory.new_verify_code_manager();
    assert_eq!(again.verify_email_code(&"a@b.c".to_string(), &code), Ok(()));
}

#[test]
fn transactions_are_stamped_with_the_current_time() {
    let repo = MemoryRepository::new();
    let tx = repo.begin();
    assert!(tx.now > 1_600_000_000);
}

#[test]
fn caller_errors_are_told_apart_from_failures() {
    assert!(Error::InvalidCredential.is_caller_error());
    assert!(Error::MissingContact.is_caller_error());
    assert!(!Error::RepositoryError("x".to_string()).is_caller_error());
    assert!(!Error::CacherError("x".to_string()).is_caller_error());
}

#[test]
fn salts_are_uuid_text() {
    let salt = ShaHasher::new().generate_salt();
    assert_eq!(salt.len(), 36);
    assert_eq!(salt.matches('-').count(), 4);
    assert!(salt.chars().all(|c| c == '-' || c.is_ascii_digit() || ('a'..='f').contains(&c)));
}
