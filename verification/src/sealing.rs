//! AES-256-GCM: how an object's bytes are sealed under a key, and opened again with it.

use aes_gcm::aead::{Aead, AeadCore, KeyInit, OsRng};
use aes_gcm::{Aes256Gcm, Key, Nonce};
use vstd::prelude::*;

verus! {

/// The number of bytes in a key.
pub const KEY_SIZE: usize = 32;

/// The number of bytes by which a sealed message is longer than the message.
pub const TAG_SIZE: usize = 16;

/// The size of the largest message that AES-GCM seals.
pub const MAX_MESSAGE_SIZE: u64 = 0x10_0000_0000;

/// What AES-256-GCM makes of `message` under `key` and `nonce`.
pub uninterp spec fn sealed(key: Seq<u8>, nonce: Seq<u8>, message: Seq<u8>) -> Seq<u8>;

/// The message that AES-256-GCM finds in `bytes` under `key` and `nonce`, if the bytes are
/// authentic.
pub uninterp spec fn opened(key: Seq<u8>, nonce: Seq<u8>, bytes: Seq<u8>) -> Option<Seq<u8>>;

/// The error of AES-GCM, which says nothing of what went wrong.
#[verifier::external_type_specification]
#[verifier::external_body]
pub struct ExSealingError(aes_gcm::Error);

/// Calls `Aes256Gcm::generate_key` with the random source of the operating system. Only the
/// size of the key is stated: its bytes are left to chance.
#[verifier::external_body]
pub(crate) fn generate_key() -> (key: Vec<u8>)
    ensures
        key@.len() == KEY_SIZE,
{
    Aes256Gcm::generate_key(OsRng).to_vec()
}

/// Calls `Aes256Gcm::generate_nonce` with the random source of the operating system. Nothing
/// is stated of the nonce, whose bytes are left to chance.
#[verifier::external_body]
pub(crate) fn generate_nonce() -> (nonce: [u8; 12])
{
    Aes256Gcm::generate_nonce(OsRng).into()
}

/// Calls `encrypt` of `Aes256Gcm`, without associated data: the sealed message, which is longer
/// by the tag and opens under the same key and nonce to the message. It fails for too large a message, and for no
/// other.
#[verifier::external_body]
pub(crate) fn seal(key: &[u8], nonce: &[u8; 12], message: &[u8]) -> (bytes: Result<Vec<u8>, aes_gcm::Error>)
    requires
        key@.len() == KEY_SIZE,
        message@.len() + TAG_SIZE <= isize::MAX,
    ensures
        bytes is Ok <==> message@.len() <= MAX_MESSAGE_SIZE,
        bytes matches Ok(bytes) ==> {
            &&& bytes@ == sealed(key@, nonce@, message@)
            &&& bytes@.len() == message@.len() + TAG_SIZE
            &&& opened(key@, nonce@, bytes@) == Some(message@)
        },
{
    Aes256Gcm::new(Key::<Aes256Gcm>::from_slice(key)).encrypt(Nonce::from_slice(nonce), message)
}

/// Calls `decrypt` of `Aes256Gcm`, without associated data: the message in `bytes`, or an
/// error where they are not authentic.
#[verifier::external_body]
pub(crate) fn open(key: &[u8], nonce: &[u8; 12], bytes: &[u8]) -> (message: Result<Vec<u8>, aes_gcm::Error>)
    requires
        key@.len() == KEY_SIZE,
    ensures
        match message {
            Ok(message) => opened(key@, nonce@, bytes@) == Some(message@),
            Err(_) => opened(key@, nonce@, bytes@) is None,
        },
{
    Aes256Gcm::new(Key::<Aes256Gcm>::from_slice(key)).decrypt(Nonce::from_slice(nonce), bytes)
}

/// Whether `key` was drawn: it holds the bytes of a key that `generate_key` returned.
pub closed spec fn is_drawn_key(key: Seq<u8>) -> bool {
    exists|drawn: Vec<u8>| #[trigger] call_ensures(generate_key, (), drawn) && drawn@ == key
}

/// Whether `nonce` was drawn: it holds the bytes of a nonce that `generate_nonce` returned.
pub closed spec fn is_drawn_nonce(nonce: Seq<u8>) -> bool {
    exists|drawn: [u8; 12]| #[trigger] call_ensures(generate_nonce, (), drawn) && drawn@ == nonce
}

/// A drawn key is what `generate_key` returns, and nothing else is.
pub(crate) proof fn law_drawn_keys(key: Seq<u8>)
    ensures
        is_drawn_key(key) <==> exists|drawn: Vec<u8>| #[trigger]
            call_ensures(generate_key, (), drawn) && drawn@ == key,
{
}

/// A drawn nonce is what `generate_nonce` returns, and nothing else is.
pub(crate) proof fn law_drawn_nonces(nonce: Seq<u8>)
    ensures
        is_drawn_nonce(nonce) <==> exists|drawn: [u8; 12]| #[trigger]
            call_ensures(generate_nonce, (), drawn) && drawn@ == nonce,
{
}

} // verus!
