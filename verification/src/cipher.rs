//! The authenticated cipher under the sealed choice: ChaCha20-Poly1305 from
//! the `chacha20poly1305` crate. Nothing in this file is proved; each contract
//! says what it takes on trust from that crate.

use chacha20poly1305::aead::{Aead, AeadCore, KeyInit, OsRng};
use chacha20poly1305::{ChaCha20Poly1305, Key, Nonce};
use vstd::prelude::*;

verus! {

/// The longest plaintext that the cipher takes: the `u32::MAX - 1` blocks of
/// 64 bytes that its keystream has for the text.
pub const MAX_PLAINTEXT_LEN: u64 = 274_877_906_816;

/// The longest ciphertext that the cipher takes: the longest plaintext and
/// the 16 bytes of the tag.
pub const MAX_CIPHERTEXT_LEN: u64 = 274_877_906_832;

/// The ciphertext, tag at its end, that `Aead::encrypt` of `ChaCha20Poly1305`
/// returns for a plaintext under a key and a nonce, with no associated data.
pub uninterp spec fn sealed(key: Seq<u8>, nonce: Seq<u8>, plaintext: Seq<u8>) -> Seq<u8>;

/// The plaintext that `Aead::decrypt` of `ChaCha20Poly1305` returns for a
/// ciphertext under a key and a nonce, with no associated data; `None` where
/// it refuses the ciphertext.
pub uninterp spec fn opened(key: Seq<u8>, nonce: Seq<u8>, ciphertext: Seq<u8>) -> Option<Seq<u8>>;

/// `KeyInit::generate_key` of `ChaCha20Poly1305` on the operating system's
/// generator: 32 random bytes. Nothing is claimed of their value.
#[verifier::external_body]
pub(crate) fn fresh_key() -> (key: [u8; 32]) {
    ChaCha20Poly1305::generate_key(&mut OsRng).into()
}

/// `AeadCore::generate_nonce` of `ChaCha20Poly1305` on the operating system's
/// generator: 12 random bytes. Nothing is claimed of their value.
#[verifier::external_body]
pub(crate) fn fresh_nonce() -> (nonce: [u8; 12]) {
    ChaCha20Poly1305::generate_nonce(&mut OsRng).into()
}

/// `Aead::encrypt` of `ChaCha20Poly1305`; `None` stands for its error, which
/// carries nothing.
///
/// The cipher keeps block 0 of its keystream for the tag and has
/// `u32::MAX - 1` blocks of 64 bytes left for the text. On a longer plaintext
/// the call panics or fails, and it allocates room for plaintext and tag at
/// once, which panics beyond `isize::MAX` bytes; hence the two demands. Taken
/// on trust: within them the call succeeds; its result is a function of key,
/// nonce and plaintext, 16 bytes longer than the plaintext; and
/// `Aead::decrypt` under the same key and nonce gives the plaintext back.
#[verifier::external_body]
pub(crate) fn seal(key: &[u8; 32], nonce: &[u8; 12], plaintext: &[u8]) -> (res: Option<Vec<u8>>)
    requires
        plaintext@.len() <= MAX_PLAINTEXT_LEN,
        plaintext@.len() + 16 <= isize::MAX,
    ensures
        res is Some,
        res matches Some(c) ==> c@ == sealed(key@, nonce@, plaintext@),
        res matches Some(c) ==> c@.len() == plaintext@.len() + 16,
        res matches Some(c) ==> opened(key@, nonce@, c@) == Some(plaintext@),
{
    ChaCha20Poly1305::new(&Key::from(*key)).encrypt(&Nonce::from(*nonce), plaintext).ok()
}

/// `Aead::decrypt` of `ChaCha20Poly1305`; `None` stands for its error, which
/// carries nothing.
///
/// `GenericArray::from_slice` panics on another length than the array's, and
/// the call panics on an authentic ciphertext whose text is longer than the
/// keystream, hence the three demands. Taken on trust: whether the call
/// succeeds, and what it then returns, is a function of key, nonce and
/// ciphertext.
#[verifier::external_body]
pub(crate) fn open(key: &[u8], nonce: &[u8], ciphertext: &[u8]) -> (res: Option<Vec<u8>>)
    requires
        key@.len() == 32,
        nonce@.len() == 12,
        ciphertext@.len() <= MAX_CIPHERTEXT_LEN,
    ensures
        res matches Some(p) ==> opened(key@, nonce@, ciphertext@) == Some(p@),
        res is None ==> opened(key@, nonce@, ciphertext@) is None,
{
    ChaCha20Poly1305::new(Key::from_slice(key)).decrypt(Nonce::from_slice(nonce), ciphertext).ok()
}

} // verus!
