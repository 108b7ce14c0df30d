//! Password-based authenticated encryption.
//!
//! A ciphertext is laid out as `[nonce: 24 bytes][sealed payload][tag: 16 bytes]`,
//! so it is always exactly 40 bytes longer than the plaintext. The nonce is
//! generated fresh for every encryption and doubles as the salt of the
//! memory-hard key derivation, which is why it is stored in clear as the
//! prefix: decryption re-derives the same key from it.

use vstd::prelude::*;

use crate::YorError;

verus! {

use vstd::string::StringSliceAdditionalSpecFns;

/// Length of the nonce prefix, which also serves as the KDF salt.
pub const NONCE_LEN: usize = 24;

/// Length of the Poly1305 authentication tag appended to the payload.
pub const TAG_LEN: usize = 16;

/// A sealed payload is this much longer than its plaintext.
pub const SEAL_OVERHEAD: usize = 40;

/// The longest plaintext the AEAD accepts (its documented `P_MAX`).
pub const SEAL_MAX_PLAINTEXT: u64 = 274_877_906_880;

/// Iteration count of the memory-hard key derivation.
pub const KDF_ITERATIONS: u32 = 15;

/// Memory cost of the key derivation, in KiB.
pub const KDF_MEMORY_KIB: u32 = 1024;

/// Length of the derived symmetric key, the cipher's key size.
pub const KDF_KEY_LENGTH: u32 = 32;

/// The key that the memory-hard KDF derives from a password and a salt with
/// the given work factors; a pure function of its arguments.
pub uninterp spec fn kdf_key(
    password: Seq<u8>,
    salt: Seq<u8>,
    iterations: u32,
    memory_kib: u32,
    length: u32,
) -> Seq<u8>;

/// The sealed payload (ciphertext and tag) that the AEAD produces for a key,
/// a nonce and a plaintext; a pure function of its arguments.
pub uninterp spec fn xchacha_sealed(key: Seq<u8>, nonce: Seq<u8>, plaintext: Seq<u8>) -> Seq<u8>;

/// The plaintext that the AEAD recovers from a sealed payload when the tag
/// verifies; a pure function of its arguments.
pub uninterp spec fn xchacha_opened(key: Seq<u8>, nonce: Seq<u8>, sealed: Seq<u8>) -> Seq<u8>;

/// The key derivation accepts exactly the non-empty passwords whose byte
/// length fits in 32 bits.
pub open spec fn password_accepted(password: Seq<u8>) -> bool {
    1 <= password.len() <= 0xFFFF_FFFFu64
}

/// The key this library derives from a password and a salt: the KDF applied
/// with the fixed work factors.
pub open spec fn derived_key(password: Seq<u8>, salt: Seq<u8>) -> Seq<u8> {
    kdf_key(password, salt, KDF_ITERATIONS, KDF_MEMORY_KIB, KDF_KEY_LENGTH)
}

/// `ct` is a ciphertext that sealing `pt` under `password` may produce:
/// some 24-byte nonce prefix, followed by the payload sealed under the key
/// derived from the password and that nonce.
pub open spec fn sealed_with(ct: Seq<u8>, pt: Seq<u8>, password: Seq<u8>) -> bool {
    &&& pt.len() <= SEAL_MAX_PLAINTEXT
    &&& ct.len() == pt.len() + SEAL_OVERHEAD
    &&& ct.skip(NONCE_LEN as int) == xchacha_sealed(
        derived_key(password, ct.take(NONCE_LEN as int)),
        ct.take(NONCE_LEN as int),
        pt,
    )
}

#[verifier::external_type_specification]
#[verifier::external_body]
pub struct ExUnknownCryptoError(orion::errors::UnknownCryptoError);

#[verifier::external_type_specification]
#[verifier::external_body]
pub struct ExGetrandomError(getrandom::Error);

/// Relies on getrandom::getrandom: fills a buffer of the requested length
/// with bytes from the operating system's CSPRNG. Nothing is assumed about
/// the contents; failure is environmental and can happen on any call.
#[verifier::external_body]
fn os_random_bytes(len: usize) -> (r: Result<Vec<u8>, getrandom::Error>)
    ensures
        r matches Ok(v) ==> v@.len() == len,
{
    let mut buf = vec![0u8; len];
    match getrandom::getrandom(&mut buf) {
        Ok(()) => Ok(buf),
        Err(e) => Err(e),
    }
}

/// Relies on orion::kdf::derive_key (Argon2i), together with the
/// orion::kdf::Password and orion::kdf::Salt constructors that guard it:
/// the derived key is a function of the five arguments alone, and the call
/// fails exactly when the password is empty or longer than 2^32 - 1 bytes,
/// the salt is shorter than 8 or longer than 2^32 - 1 bytes, fewer than 3
/// iterations or less than 8 KiB of memory are requested, or the requested
/// length is under 4 bytes.
#[verifier::external_body]
fn kdf_derive(
    password: &[u8],
    salt: &[u8],
    iterations: u32,
    memory_kib: u32,
    length: u32,
) -> (r: Result<Vec<u8>, orion::errors::UnknownCryptoError>)
    ensures
        r is Ok <==> {
            &&& 1 <= password@.len() <= 0xFFFF_FFFFu64
            &&& 8 <= salt@.len() <= 0xFFFF_FFFFu64
            &&& iterations >= 3
            &&& memory_kib >= 8
            &&& length >= 4
        },
        r matches Ok(k) ==> k@ == kdf_key(password@, salt@, iterations, memory_kib, length)
            && k@.len() == length,
{
    let pw = orion::kdf::Password::from_slice(password)?;
    let s = orion::kdf::Salt::from_slice(salt)?;
    let k = orion::kdf::derive_key(&pw, &s, iterations, memory_kib, length)?;
    Ok(k.unprotected_as_bytes().to_vec())
}

/// Relies on orion::hazardous::aead::xchacha20poly1305::seal: fills the
/// exact-size buffer with the XChaCha20-Poly1305 ciphertext and tag. The
/// output is a function of key, nonce and plaintext alone, and the call
/// fails exactly when the plaintext is longer than the AEAD's `P_MAX`.
#[verifier::external_body]
fn xchacha_seal_into(
    key: &[u8],
    nonce: &[u8],
    plaintext: &[u8],
    out: &mut Vec<u8>,
) -> (r: Result<(), orion::errors::UnknownCryptoError>)
    requires
        key@.len() == 32,
        nonce@.len() == 24,
        old(out)@.len() == plaintext@.len() + 16,
    ensures
        r is Ok <==> plaintext@.len() <= SEAL_MAX_PLAINTEXT,
        r is Ok ==> final(out)@ == xchacha_sealed(key@, nonce@, plaintext@),
        r is Ok ==> final(out)@.len() == plaintext@.len() + 16,
{
    let k = orion::hazardous::aead::xchacha20poly1305::SecretKey::from_slice(key)?;
    let n = orion::hazardous::aead::xchacha20poly1305::Nonce::from_slice(nonce)?;
    orion::hazardous::aead::xchacha20poly1305::seal(&k, &n, plaintext, None, out.as_mut_slice())?;
    Ok(())
}

/// Relies on orion::hazardous::aead::xchacha20poly1305::open: verifies the
/// Poly1305 tag over the sealed payload and decrypts it into the exact-size
/// buffer. A payload sealed under the same key and nonce opens to exactly
/// the plaintext it was sealed from; any successful result is a function of
/// key, nonce and payload alone.
#[verifier::external_body]
fn xchacha_open_into(
    key: &[u8],
    nonce: &[u8],
    sealed: &[u8],
    out: &mut Vec<u8>,
) -> (r: Result<(), orion::errors::UnknownCryptoError>)
    requires
        key@.len() == 32,
        nonce@.len() == 24,
        sealed@.len() >= 16,
        old(out)@.len() + 16 == sealed@.len(),
    ensures
        r is Ok ==> final(out)@ == xchacha_opened(key@, nonce@, sealed@),
        r is Ok ==> final(out)@.len() == old(out)@.len(),
        forall|p: Seq<u8>|
            p.len() <= SEAL_MAX_PLAINTEXT && sealed@ == #[trigger] xchacha_sealed(key@, nonce@, p)
                ==> r is Ok && final(out)@ == p,
{
    let k = orion::hazardous::aead::xchacha20poly1305::SecretKey::from_slice(key)?;
    let n = orion::hazardous::aead::xchacha20poly1305::Nonce::from_slice(nonce)?;
    orion::hazardous::aead::xchacha20poly1305::open(&k, &n, sealed, None, out.as_mut_slice())?;
    Ok(())
}

/// Derive the symmetric key for one seal or open call. The salt must be at
/// least 8 bytes; this library always passes the 24-byte nonce.
fn get_key_from_password(password: &str, salt: &[u8]) -> (r: Result<Vec<u8>, YorError>)
    ensures
        r is Ok <==> password_accepted(password.spec_bytes())
            && 8 <= salt@.len() <= 0xFFFF_FFFFu64,
        r matches Ok(k) ==> k@ == derived_key(password.spec_bytes(), salt@) && k@.len() == 32,
        r matches Err(e) ==> e == YorError::KeyDerivation,
{
    match kdf_derive(password.as_bytes(), salt, KDF_ITERATIONS, KDF_MEMORY_KIB, KDF_KEY_LENGTH) {
        Ok(k) => Ok(k),
        Err(_) => Err(YorError::KeyDerivation),
    }
}

/// The errors `encrypt` may report, each tied to its cause. Randomness can
/// fail on any call; the other causes are decided by the inputs.
pub open spec fn encrypt_err_allowed(e: YorError, pt: Seq<u8>, password: Seq<u8>) -> bool {
    ||| e == YorError::RandomnessUnavailable
    ||| (e == YorError::KeyDerivation && !password_accepted(password))
    ||| (e == YorError::PayloadTooLarge && password_accepted(password)
        && (pt.len() + SEAL_OVERHEAD > usize::MAX || pt.len() > SEAL_MAX_PLAINTEXT))
}

/// Seal a plaintext under a password: generate a fresh 24-byte nonce,
/// derive the key from the password and that nonce, and return the nonce
/// followed by the sealed payload. The result is exactly 40 bytes longer
/// than the plaintext.
pub fn encrypt(plaintext: &[u8], password: &str) -> (r: Result<Vec<u8>, YorError>)
    ensures
        r matches Ok(ct) ==> password_accepted(password.spec_bytes())
            && sealed_with(ct@, plaintext@, password.spec_bytes()),
        r matches Err(e) ==> encrypt_err_allowed(e, plaintext@, password.spec_bytes()),
        !password_accepted(password.spec_bytes()) ==> r is Err,
        password_accepted(password.spec_bytes()) && plaintext@.len() + SEAL_OVERHEAD <= usize::MAX
            && plaintext@.len() <= SEAL_MAX_PLAINTEXT
            ==> r is Ok || r == Err::<Vec<u8>, YorError>(YorError::RandomnessUnavailable),
{
    let nonce = match os_random_bytes(NONCE_LEN) {
        Ok(v) => v,
        Err(_) => {
            return Err(YorError::RandomnessUnavailable);
        },
    };
    let key = match get_key_from_password(password, nonce.as_slice()) {
        Ok(k) => k,
        Err(e) => {
            return Err(e);
        },
    };
    if plaintext.len() > usize::MAX - SEAL_OVERHEAD {
        return Err(YorError::PayloadTooLarge);
    }
    let mut sealed = vec![0u8; plaintext.len() + TAG_LEN];
    match xchacha_seal_into(key.as_slice(), nonce.as_slice(), plaintext, &mut sealed) {
        Ok(()) => {},
        Err(_) => {
            return Err(YorError::PayloadTooLarge);
        },
    }
    let ghost nonce_view = nonce@;
    let ghost sealed_view = sealed@;
    let mut out = nonce;
    out.append(&mut sealed);
    proof {
        assert(out@.take(NONCE_LEN as int) =~= nonce_view);
        assert(out@.skip(NONCE_LEN as int) =~= sealed_view);
    }
    Ok(out)
}

/// Open a ciphertext under a password: reject anything not longer than the
/// 24-byte nonce prefix, re-derive the key from the password and the prefix,
/// and verify and decrypt the rest. A wrong password, a tampered ciphertext
/// and a corrupted store are indistinguishable: all surface as
/// `InvalidKeyOrCiphertext`.
pub fn decrypt(ciphertext: &[u8], password: &str) -> (r: Result<Vec<u8>, YorError>)
    ensures
        r == Err::<Vec<u8>, YorError>(YorError::CiphertextTooShort) <==> ciphertext@.len() <= 24,
        ciphertext@.len() > 24 ==> (r == Err::<Vec<u8>, YorError>(YorError::KeyDerivation)
            <==> !password_accepted(password.spec_bytes())),
        r matches Err(e) ==> (e == YorError::CiphertextTooShort || e == YorError::KeyDerivation
            || e == YorError::InvalidKeyOrCiphertext),
        forall|p: Seq<u8>|
            #[trigger] sealed_with(ciphertext@, p, password.spec_bytes())
                && password_accepted(password.spec_bytes())
                ==> (r matches Ok(d) && d@ == p),
        r matches Ok(d) ==> ciphertext@.len() >= 40
            && password_accepted(password.spec_bytes())
            && d@.len() + SEAL_OVERHEAD == ciphertext@.len()
            && d@ == xchacha_opened(
                derived_key(password.spec_bytes(), ciphertext@.take(24)),
                ciphertext@.take(24),
                ciphertext@.skip(24),
            ),
{
    if ciphertext.len() <= NONCE_LEN {
        return Err(YorError::CiphertextTooShort);
    }
    let salt = vstd::slice::slice_subrange(ciphertext, 0, NONCE_LEN);
    let key = match get_key_from_password(password, salt) {
        Ok(k) => k,
        Err(e) => {
            return Err(e);
        },
    };
    let sealed = vstd::slice::slice_subrange(ciphertext, NONCE_LEN, ciphertext.len());
    if sealed.len() < TAG_LEN {
        return Err(YorError::InvalidKeyOrCiphertext);
    }
    let out_len: usize = sealed.len() - TAG_LEN;
    let mut out = vec![0u8; out_len];
    let opened = xchacha_open_into(key.as_slice(), salt, sealed, &mut out);
    proof {
        assert(salt@ =~= ciphertext@.take(24));
        assert(sealed@ =~= ciphertext@.skip(24));
    }
    match opened {
        Ok(()) => Ok(out),
        Err(_) => Err(YorError::InvalidKeyOrCiphertext),
    }
}

} // verus!
