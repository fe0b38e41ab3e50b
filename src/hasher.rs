use vstd::prelude::*;
use sha2::Digest;

verus! {

/// The SHA-384 digest of the UTF-8 bytes of `content` followed by those of
/// `salt`.
pub uninterp spec fn sha384_of(content: Seq<char>, salt: Seq<char>) -> Seq<u8>;

/// The lower-case hexadecimal digit for a value below 16.
pub open spec fn hex_digit(n: u8) -> char {
    seq!['0', '1', '2', '3', '4', '5', '6', '7', '8', '9', 'a', 'b', 'c', 'd', 'e', 'f'][n as int]
}

/// Two lower-case hexadecimal digits per byte, high nibble first.
pub open spec fn hex_text(b: Seq<u8>) -> Seq<char>
    decreases b.len(),
{
    if b.len() == 0 {
        Seq::<char>::empty()
    } else {
        hex_text(b.drop_last()) + seq![hex_digit(b.last() / 16), hex_digit(b.last() % 16)]
    }
}

/// Hex text has two characters per byte.
pub proof fn lemma_hex_text_len(b: Seq<u8>)
    ensures
        hex_text(b).len() == 2 * b.len(),
    decreases b.len(),
{
    if b.len() > 0 {
        lemma_hex_text_len(b.drop_last());
    }
}

/// The salted digest under which secrets and passwords are stored.
pub open spec fn hash_text(content: Seq<char>, salt: Seq<char>) -> Seq<char> {
    hex_text(sha384_of(content, salt))
}

/// Relies on sha2's `Sha384` (`new`, two `update`s, `finalize`): the 48-byte
/// digest of the bytes of `content` followed by the bytes of `salt`.
#[verifier::external_body]
fn sha384(content: &str, salt: &str) -> (r: Vec<u8>)
    ensures
        r@ == sha384_of(content@, salt@),
        r@.len() == 48,
{
    let mut hasher = sha2::Sha384::new();
    hasher.update(content.as_bytes());
    hasher.update(salt.as_bytes());
    hasher.finalize().to_vec()
}

/// Relies on `hex::encode`: two lower-case hexadecimal digits for each byte,
/// in order.
#[verifier::external_body]
fn hex_encode(bytes: &Vec<u8>) -> (r: String)
    ensures
        r@ == hex_text(bytes@),
{
    hex::encode(bytes)
}

/// Relies on `uuid::Uuid::new_v4` and its `Display`: a fresh random UUID in
/// its hyphenated form, 36 characters long. Nothing else is promised of
/// its value.
#[verifier::external_body]
pub(crate) fn random_uuid_text() -> (r: String)
    ensures
        r@.len() == 36,
        forall|i: int|
            0 <= i < 36 ==> if i == 8 || i == 13 || i == 18 || i == 23 {
                #[trigger] r@[i] == '-'
            } else {
                '0' <= r@[i] <= '9' || 'a' <= r@[i] <= 'f'
            },
{
    uuid::Uuid::new_v4().to_string()
}

/// Salted SHA-384 hashing of passwords and secrets, hex encoded.
pub struct ShaHasher;

impl ShaHasher {
    pub fn new() -> (r: ShaHasher) {
        ShaHasher
    }

    /// A fresh random salt: the 36-character text of a random UUID.
    pub fn generate_salt(&self) -> (r: String)
        ensures
            r@.len() == 36,
    {
        random_uuid_text()
    }

    /// The hex-encoded SHA-384 digest of `content` followed by `salt`.
    pub fn hash(&self, content: &str, salt: &str) -> (r: String)
        ensures
            r@ == hash_text(content@, salt@),
            r@.len() == 96,
    {
        let digest = sha384(content, salt);
        proof {
            lemma_hex_text_len(digest@);
        }
        hex_encode(&digest)
    }
}

/// Hands out hashers; a hasher holds no state.
pub struct ShaHasherFactory;

impl ShaHasherFactory {
    pub fn new() -> (r: ShaHasherFactory) {
        ShaHasherFactory
    }

    pub fn new_hasher(&self) -> (r: ShaHasher) {
        ShaHasher
    }
}

} // verus!
