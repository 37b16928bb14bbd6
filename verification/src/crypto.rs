//! Key derivation and authenticated encryption, done by the `orion` crate.
//!
//! Nothing in this file is proved: each function states what `orion` documents
//! of the call that it makes, and the rest of the crate is verified against
//! these statements.

use vstd::prelude::*;

verus! {

/// The error that `orion` returns; it carries no information.
#[verifier::external_type_specification]
#[verifier::external_body]
pub struct ExUnknownCryptoError(orion::errors::UnknownCryptoError);

/// The key that `orion::kdf::derive_key` (Argon2i) returns for a password, a
/// salt, an iteration count, a memory cost in KiB and a key length; `None`
/// where it returns an error.
pub uninterp spec fn derived_key(
    password: Seq<u8>,
    salt: Seq<u8>,
    iterations: u32,
    memory: u32,
    length: u32,
) -> Option<Seq<u8>>;

/// The plaintext that `orion::aead::open` (XChaCha20-Poly1305) returns for a
/// key and a sealed message; `None` where it returns an error, which includes
/// a tag that does not match.
pub uninterp spec fn aead_opened(key: Seq<u8>, sealed: Seq<u8>) -> Option<Seq<u8>>;

/// The least iteration count that `orion::kdf::derive_key` accepts.
pub const MIN_ITERATIONS: u32 = 3;

/// The least memory cost, in KiB, that `orion::kdf::derive_key` accepts.
pub const MIN_MEMORY: u32 = 8;

/// The inputs that `orion::kdf::derive_key` accepts, as its documentation and
/// the length checks in its source list them.
pub open spec fn kdf_accepts(
    password_len: nat,
    salt_len: nat,
    iterations: u32,
    memory: u32,
    length: u32,
) -> bool {
    &&& 1 <= password_len <= 0xFFFF_FFFF
    &&& password_len <= isize::MAX
    &&& 8 <= salt_len <= 0xFFFF_FFFF
    &&& salt_len <= isize::MAX
    &&& iterations >= MIN_ITERATIONS
    &&& memory >= MIN_MEMORY
    &&& 4 <= length <= isize::MAX
}

/// The inputs on which `orion::aead::seal` returns no error: a key of 32
/// bytes and a plaintext that is not empty and leaves room for the overhead.
pub open spec fn sealable(key_len: nat, plaintext_len: nat) -> bool {
    key_len == 32 && 0 < plaintext_len && plaintext_len + SEAL_OVERHEAD <= usize::MAX
}

/// The most bytes that one call of `orion::aead::seal` encrypts, and that one
/// call of `orion::aead::open` decrypts: two blocks less than a block counter
/// of 32 bits counts, at 64 bytes each, since the cipher spends one block on
/// the key of the authentication tag before the first block of data.
pub const MAX_PLAINTEXT: u64 = 274_877_906_816;

/// The bytes that `orion::aead::seal` puts around the ciphertext: a nonce of
/// 24 bytes before it and a tag of 16 bytes after it.
pub const SEAL_OVERHEAD: usize = 40;

/// Calls `orion::kdf::Salt::generate`. It returns an error exactly for a
/// length of zero or one above `isize::MAX`, and otherwise that many bytes
/// from the system's random source. (It panics where that source fails.)
#[verifier::external_body]
pub(crate) fn random_salt(length: usize) -> (r: Result<Vec<u8>, orion::errors::UnknownCryptoError>)
    ensures
        r is Ok <==> 1 <= length <= isize::MAX,
        r matches Ok(salt) ==> salt@.len() == length,
{
    let salt = orion::kdf::Salt::generate(length)?;
    Ok(salt.as_ref().to_vec())
}

/// Calls `orion::kdf::derive_key` on a password and a salt given as bytes. The
/// result is a function of the arguments, named [`derived_key`]; it is an error
/// exactly outside [`kdf_accepts`], and a key has the length asked for. (The
/// call allocates `memory` KiB.)
#[verifier::external_body]
pub(crate) fn derive_key_bytes(
    password: &[u8],
    salt: &[u8],
    iterations: u32,
    memory: u32,
    length: u32,
) -> (r: Result<Vec<u8>, orion::errors::UnknownCryptoError>)
    ensures
        match r {
            Ok(key) => derived_key(password@, salt@, iterations, memory, length) == Some(key@),
            Err(_) => derived_key(password@, salt@, iterations, memory, length) is None,
        },
        r is Ok <==> kdf_accepts(password@.len(), salt@.len(), iterations, memory, length),
        r matches Ok(key) ==> key@.len() == length,
{
    let password = orion::kdf::Password::from_slice(password)?;
    let salt = orion::kdf::Salt::from_slice(salt)?;
    let key = orion::kdf::derive_key(&password, &salt, iterations, memory, length)?;
    Ok(key.unprotected_as_bytes().to_vec())
}

/// Calls `orion::aead::seal` with a key given as bytes. It draws a fresh nonce,
/// so two calls differ, and panics where the random source fails. It returns
/// an error exactly where the key is not 32 bytes long, the plaintext is empty
/// or the output length overflows; what it returns is [`SEAL_OVERHEAD`] bytes
/// longer than the plaintext, and `orion::aead::open` under the same key gives
/// the plaintext back. (A plaintext of more than [`MAX_PLAINTEXT`] bytes
/// exhausts the cipher's block counter, so those are left out.)
#[verifier::external_body]
pub(crate) fn aead_seal(key: &[u8], plaintext: &[u8]) -> (r: Result<
    Vec<u8>,
    orion::errors::UnknownCryptoError,
>)
    requires
        plaintext@.len() <= MAX_PLAINTEXT,
    ensures
        r is Ok <==> sealable(key@.len(), plaintext@.len()),
        r matches Ok(sealed) ==> sealed@.len() == plaintext@.len() + SEAL_OVERHEAD,
        r matches Ok(sealed) ==> aead_opened(key@, sealed@) == Some(plaintext@),
{
    let key = orion::aead::SecretKey::from_slice(key)?;
    orion::aead::seal(&key, plaintext)
}

/// Calls `orion::aead::open` with a key given as bytes. The result is a
/// function of the arguments, named [`aead_opened`]. (On an authentic message
/// of more than [`MAX_PLAINTEXT`] bytes the call panics, so those are left
/// out.)
#[verifier::external_body]
pub(crate) fn aead_open(key: &[u8], sealed: &[u8]) -> (r: Result<
    Vec<u8>,
    orion::errors::UnknownCryptoError,
>)
    requires
        sealed@.len() <= MAX_PLAINTEXT + SEAL_OVERHEAD,
    ensures
        match r {
            Ok(plaintext) => aead_opened(key@, sealed@) == Some(plaintext@),
            Err(_) => aead_opened(key@, sealed@) is None,
        },
{
    let key = orion::aead::SecretKey::from_slice(key)?;
    orion::aead::open(&key, sealed)
}

} // verus!
