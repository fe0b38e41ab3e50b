//! Multi-tenant credential issuance and verification.
//!
//! Apps (tenants) register and receive a secret; users register under an app,
//! log in with a password and receive a rotating secret that later requests
//! present as proof of identity. Secrets are kept only as salted digests, in a
//! transactional store and in a read-through cache.
pub mod cacher;
pub mod error;
pub mod hasher;
pub mod laws;
pub mod models;
pub mod protocol;
pub mod repository;
pub mod secret_generator;
pub mod services;
pub mod verify_code;
