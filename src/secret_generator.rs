use vstd::prelude::*;
use crate::hasher::random_uuid_text;

verus! {

/// A source of secrets for apps and users.
pub trait SecretGenerator {
    /// A fresh secret. Nothing is promised of its value: the services check
    /// what they need of it.
    fn generate_secret(&self) -> String;
}

/// Generates unpredictable secrets: random UUIDs in their text form.
pub struct RandomSecretGenerator;

impl RandomSecretGenerator {
    pub fn new() -> (r: RandomSecretGenerator) {
        RandomSecretGenerator
    }
}

impl SecretGenerator for RandomSecretGenerator {
    fn generate_secret(&self) -> (r: String)
        ensures
            r@.len() == 36,
    {
        random_uuid_text()
    }
}

} // verus!
