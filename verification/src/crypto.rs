//! Cryptographic primitives consumed by the lifecycle engine.
//!
//! The primitives themselves (HMAC-SHA256, AES-GCM, PBKDF2, the system random
//! source) are outside crates used as black boxes behind trusted wrappers;
//! everything around them — argument validation, the HKDF construction, the
//! sensitive-buffer types — is verified.

use vstd::prelude::*;

use aes_gcm::aead::AeadInPlace;
use aes_gcm::KeyInit;
use hmac::Mac;

verus! {

/// Length of an AES-GCM initialization vector.
pub const GCM_IV_LENGTH: usize = 12;

/// Length of an AES-GCM authentication tag.
pub const TAG_LENGTH: usize = 16;

/// Length of an AES 256 key in bytes.
pub const AES_256_KEY_LENGTH: usize = 32;

/// Length of an AES 128 key in bytes.
pub const AES_128_KEY_LENGTH: usize = 16;

/// Length of the expected salt for key-from-password generation.
pub const SALT_LENGTH: usize = 16;

/// Length of an HMAC-SHA256 tag in bytes.
pub const HMAC_SHA256_LEN: usize = 32;

/// Older releases produced initialization vectors with four extra ignored
/// zero bytes at the end; those are recognised and trimmed.
pub const LEGACY_IV_LENGTH: usize = 16;

/// Iteration count used for password-based key derivation.
pub const PBKDF2_ITERATIONS: u32 = 8192;

/// The largest output HKDF-SHA256 can expand to: 255 blocks of 32 bytes.
pub const HKDF_MAX_OUT_LEN: usize = 8160;

/// Errors of the crypto module.
#[derive(Clone, Copy, Debug, PartialEq, Eq, Structural)]
pub enum Error {
    RandomNumberGenerationFailed,
    InvalidIvLength,
    InvalidAeadTagLength,
    InvalidKeyLength,
    InvalidSaltLength,
    EncryptionFailed,
    DecryptionFailed,
    HmacSha256Failed,
    HKDFExtractFailed,
    HKDFExpandFailed,
}

/// What HMAC-SHA256 returns for a key and a message.  The outside crate
/// computes it; the result depends on the arguments alone.
pub uninterp spec fn hmac_sha256_of(key: Seq<u8>, msg: Seq<u8>) -> Seq<u8>;

/// What AES-128-GCM authenticated decryption returns for a key, a nonce, a
/// ciphertext and a tag: the plaintext, or nothing when authentication fails.
pub uninterp spec fn gcm_open_128_of(key: Seq<u8>, iv: Seq<u8>, data: Seq<u8>, tag: Seq<u8>) -> Option<Seq<u8>>;

/// What AES-256-GCM authenticated decryption returns for a key, a nonce, a
/// ciphertext and a tag: the plaintext, or nothing when authentication fails.
pub uninterp spec fn gcm_open_256_of(key: Seq<u8>, iv: Seq<u8>, data: Seq<u8>, tag: Seq<u8>) -> Option<Seq<u8>>;

/// What PBKDF2-HMAC-SHA256 derives from a password, a salt, an iteration
/// count and an output length.
pub uninterp spec fn pbkdf2_hmac_sha256_of(
    password: Seq<u8>,
    salt: Seq<u8>,
    rounds: u32,
    out_len: nat,
) -> Seq<u8>;

/// AES-GCM authenticated decryption, dispatched on the key length.
pub open spec fn spec_gcm_open(key: Seq<u8>, iv: Seq<u8>, data: Seq<u8>, tag: Seq<u8>) -> Option<
    Seq<u8>,
> {
    if key.len() == 16 {
        gcm_open_128_of(key, iv, data, tag)
    } else {
        gcm_open_256_of(key, iv, data, tag)
    }
}

/// Relies on getrandom::getrandom: on success the whole buffer is filled with
/// random bytes from the operating system.
#[verifier::external_body]
fn fill_random(n: usize) -> (r: Result<Vec<u8>, Error>)
    ensures
        r matches Ok(v) ==> v@.len() == n,
{
    let mut data = vec![0u8; n];
    match getrandom::getrandom(&mut data) {
        Ok(()) => Ok(data),
        Err(_) => Err(Error::RandomNumberGenerationFailed),
    }
}

/// Relies on hmac's `Hmac<Sha256>`: `new_from_slice` accepts keys of any
/// length (longer keys are hashed first) and never fails, and the 32-byte
/// tag is a function of the key and the message alone.
#[verifier::external_body]
fn hmac_sha256_call(key: &[u8], msg: &[u8]) -> (r: Result<Vec<u8>, Error>)
    ensures
        r is Ok,
        r matches Ok(tag) ==> tag@ == hmac_sha256_of(key@, msg@) && tag@.len() == 32,
{
    let mut mac = match <hmac::Hmac<sha2::Sha256> as hmac::Mac>::new_from_slice(key) {
        Ok(m) => m,
        Err(_) => return Err(Error::HmacSha256Failed),
    };
    mac.update(msg);
    Ok(mac.finalize().into_bytes().to_vec())
}

/// Relies on aes_gcm's `Aes128Gcm::decrypt_in_place_detached`: it checks the
/// tag and, only when the tag matches, yields the plaintext, which has the
/// same length as the ciphertext and depends on the arguments alone.
#[verifier::external_body]
fn aes_gcm_open_128(data: &[u8], iv: &[u8], tag: &[u8], key: &[u8]) -> (r: Result<Vec<u8>, Error>)
    requires
        key@.len() == 16,
        iv@.len() == 12,
        tag@.len() == 16,
    ensures
        r matches Ok(p) ==> gcm_open_128_of(key@, iv@, data@, tag@) == Some(p@) && p@.len()
            == data@.len(),
        r is Err ==> gcm_open_128_of(key@, iv@, data@, tag@) is None,
{
    let cipher = match aes_gcm::Aes128Gcm::new_from_slice(key) {
        Ok(c) => c,
        Err(_) => return Err(Error::DecryptionFailed),
    };
    let mut buffer = data.to_vec();
    match cipher.decrypt_in_place_detached(
        aes_gcm::Nonce::from_slice(iv),
        &[],
        &mut buffer,
        aes_gcm::Tag::from_slice(tag),
    ) {
        Ok(()) => Ok(buffer),
        Err(_) => Err(Error::DecryptionFailed),
    }
}

/// Relies on aes_gcm's `Aes256Gcm::decrypt_in_place_detached`, as the 128-bit
/// variant above.
#[verifier::external_body]
fn aes_gcm_open_256(data: &[u8], iv: &[u8], tag: &[u8], key: &[u8]) -> (r: Result<Vec<u8>, Error>)
    requires
        key@.len() == 32,
        iv@.len() == 12,
        tag@.len() == 16,
    ensures
        r matches Ok(p) ==> gcm_open_256_of(key@, iv@, data@, tag@) == Some(p@) && p@.len()
            == data@.len(),
        r is Err ==> gcm_open_256_of(key@, iv@, data@, tag@) is None,
{
    let cipher = match aes_gcm::Aes256Gcm::new_from_slice(key) {
        Ok(c) => c,
        Err(_) => return Err(Error::DecryptionFailed),
    };
    let mut buffer = data.to_vec();
    match cipher.decrypt_in_place_detached(
        aes_gcm::Nonce::from_slice(iv),
        &[],
        &mut buffer,
        aes_gcm::Tag::from_slice(tag),
    ) {
        Ok(()) => Ok(buffer),
        Err(_) => Err(Error::DecryptionFailed),
    }
}

/// Relies on aes_gcm's `Aes128Gcm::encrypt_in_place_detached`: the ciphertext
/// keeps the plaintext's length, the tag is 16 bytes, and decrypting the
/// ciphertext with the same key, nonce and tag yields the plaintext again
/// (the cipher applies the same keystream and computes the tag over the same
/// ciphertext both ways).
#[verifier::external_body]
fn aes_gcm_seal_128(plaintext: &[u8], iv: &[u8], key: &[u8]) -> (r: Result<
    (Vec<u8>, Vec<u8>),
    Error,
>)
    requires
        key@.len() == 16,
        iv@.len() == 12,
    ensures
        r matches Ok((ct, tag)) ==> ct@.len() == plaintext@.len() && tag@.len() == 16
            && gcm_open_128_of(key@, iv@, ct@, tag@) == Some(plaintext@),
{
    let cipher = match aes_gcm::Aes128Gcm::new_from_slice(key) {
        Ok(c) => c,
        Err(_) => return Err(Error::EncryptionFailed),
    };
    let mut buffer = plaintext.to_vec();
    match cipher.encrypt_in_place_detached(aes_gcm::Nonce::from_slice(iv), &[], &mut buffer) {
        Ok(tag) => Ok((buffer, tag.to_vec())),
        Err(_) => Err(Error::EncryptionFailed),
    }
}

/// Relies on aes_gcm's `Aes256Gcm::encrypt_in_place_detached`, as the 128-bit
/// variant above.
#[verifier::external_body]
fn aes_gcm_seal_256(plaintext: &[u8], iv: &[u8], key: &[u8]) -> (r: Result<
    (Vec<u8>, Vec<u8>),
    Error,
>)
    requires
        key@.len() == 32,
        iv@.len() == 12,
    ensures
        r matches Ok((ct, tag)) ==> ct@.len() == plaintext@.len() && tag@.len() == 16
            && gcm_open_256_of(key@, iv@, ct@, tag@) == Some(plaintext@),
{
    let cipher = match aes_gcm::Aes256Gcm::new_from_slice(key) {
        Ok(c) => c,
        Err(_) => return Err(Error::EncryptionFailed),
    };
    let mut buffer = plaintext.to_vec();
    match cipher.encrypt_in_place_detached(aes_gcm::Nonce::from_slice(iv), &[], &mut buffer) {
        Ok(tag) => Ok((buffer, tag.to_vec())),
        Err(_) => Err(Error::EncryptionFailed),
    }
}

/// Relies on pbkdf2's `pbkdf2_hmac::<Sha256>`: it fills the whole output
/// buffer, and the derived bytes are a function of the password, the salt,
/// the iteration count and the output length alone.
#[verifier::external_body]
fn pbkdf2_call(password: &[u8], salt: &[u8], rounds: u32, out: &mut Vec<u8>)
    requires
        rounds >= 1,
    ensures
        final(out)@.len() == old(out)@.len(),
        final(out)@ == pbkdf2_hmac_sha256_of(password@, salt@, rounds, old(out)@.len() as nat),
{
    pbkdf2::pbkdf2_hmac::<sha2::Sha256>(password, salt, rounds, out.as_mut_slice());
}

/// Appends all bytes of `src` to `dst`.
fn append_bytes(dst: &mut Vec<u8>, src: &[u8])
    ensures
        final(dst)@ == old(dst)@ + src@,
{
    let mut i: usize = 0;
    while i < src.len()
        invariant
            i <= src@.len(),
            dst@ == old(dst)@ + src@.take(i as int),
        decreases src@.len() - i,
    {
        dst.push(src[i]);
        i += 1;
        proof {
            assert(old(dst)@ + src@.take(i as int) =~= (old(dst)@ + src@.take(i - 1int)).push(
                src@[i - 1int],
            ));
        }
    }
    proof {
        assert(src@.take(src@.len() as int) =~= src@);
    }
}

/// Owned buffer for sensitive key material, kept distinct from ordinary
/// byte vectors so that material that must not outlive its use is explicit
/// in the type.
#[derive(Debug)]
pub struct ZVec {
    data: Vec<u8>,
}

impl View for ZVec {
    type V = Seq<u8>;

    closed spec fn view(&self) -> Seq<u8> {
        self.data@
    }
}

impl ZVec {
    /// A zero-filled buffer of `len` bytes.
    pub fn new(len: usize) -> (r: ZVec)
        ensures
            r@ == Seq::new(len as nat, |i: int| 0u8),
    {
        let mut data: Vec<u8> = Vec::new();
        let mut i: usize = 0;
        while i < len
            invariant
                i <= len,
                data@ == Seq::new(i as nat, |k: int| 0u8),
            decreases len - i,
        {
            data.push(0);
            i += 1;
            proof {
                assert(data@ =~= Seq::new(i as nat, |k: int| 0u8));
            }
        }
        ZVec { data }
    }

    /// A sensitive copy of the given bytes.
    pub fn from_bytes(bytes: &[u8]) -> (r: ZVec)
        ensures
            r@ == bytes@,
    {
        ZVec { data: vstd::slice::slice_to_vec(bytes) }
    }

    /// Wraps an owned buffer as sensitive material.
    pub fn from_vec(data: Vec<u8>) -> (r: ZVec)
        ensures
            r@ == data@,
    {
        ZVec { data }
    }

    pub fn len(&self) -> (r: usize)
        ensures
            r == self@.len(),
    {
        self.data.len()
    }

    pub fn as_slice(&self) -> (r: &[u8])
        ensures
            r@ == self@,
    {
        self.data.as_slice()
    }

    /// Shortens the buffer to `new_len` bytes; a longer `new_len` leaves it
    /// unchanged.
    pub fn reduce_len(&mut self, new_len: usize)
        ensures
            new_len <= old(self)@.len() ==> final(self)@ == old(self)@.take(new_len as int),
            new_len > old(self)@.len() ==> final(self)@ == old(self)@,
    {
        self.data.truncate(new_len);
        proof {
            if new_len <= old(self)@.len() {
                assert(old(self)@.subrange(0, new_len as int) =~= old(self)@.take(new_len as int));
            }
        }
    }
}

/// Generates a fresh AES-256 key: 32 random bytes in a sensitive buffer.
pub fn generate_aes256_key() -> (r: Result<ZVec, Error>)
    ensures
        r matches Ok(k) ==> k@.len() == AES_256_KEY_LENGTH,
        r matches Err(e) ==> e == Error::RandomNumberGenerationFailed,
{
    match fill_random(AES_256_KEY_LENGTH) {
        Ok(data) => Ok(ZVec::from_vec(data)),
        Err(_) => Err(Error::RandomNumberGenerationFailed),
    }
}

/// Generates a salt of `SALT_LENGTH` random bytes.
pub fn generate_salt() -> (r: Result<Vec<u8>, Error>)
    ensures
        r matches Ok(v) ==> v@.len() == SALT_LENGTH,
        r matches Err(e) ==> e == Error::RandomNumberGenerationFailed,
{
    generate_random_data(SALT_LENGTH)
}

/// Generates random data of the given size.
pub fn generate_random_data(size: usize) -> (r: Result<Vec<u8>, Error>)
    ensures
        r matches Ok(v) ==> v@.len() == size,
        r matches Err(e) ==> e == Error::RandomNumberGenerationFailed,
{
    match fill_random(size) {
        Ok(data) => Ok(data),
        Err(_) => Err(Error::RandomNumberGenerationFailed),
    }
}

/// Computes HMAC-SHA256 over `msg` with `key`.
pub fn hmac_sha256(key: &[u8], msg: &[u8]) -> (r: Result<Vec<u8>, Error>)
    ensures
        r is Ok,
        r matches Ok(tag) ==> tag@ == hmac_sha256_of(key@, msg@) && tag@.len()
            == HMAC_SHA256_LEN,
{
    hmac_sha256_call(key, msg)
}

/// AES-GCM decryption of a message given an initialization vector, an AEAD
/// tag and a key.  Keys of 16 and 32 bytes select AES-128 and AES-256; an
/// oversized legacy initialization vector is trimmed to 12 bytes.  The
/// plaintext is returned in a sensitive buffer.
pub fn aes_gcm_decrypt(data: &[u8], iv: &[u8], tag: &[u8], key: &[u8]) -> (r: Result<ZVec, Error>)
    ensures
        (iv@.len() != GCM_IV_LENGTH && iv@.len() != LEGACY_IV_LENGTH) <==> r == Err::<ZVec, Error>(
            Error::InvalidIvLength,
        ),
        (iv@.len() == GCM_IV_LENGTH || iv@.len() == LEGACY_IV_LENGTH) && tag@.len() != TAG_LENGTH
            <==> r == Err::<ZVec, Error>(Error::InvalidAeadTagLength),
        (iv@.len() == GCM_IV_LENGTH || iv@.len() == LEGACY_IV_LENGTH) && tag@.len() == TAG_LENGTH
            && (key@.len() != AES_128_KEY_LENGTH && key@.len() != AES_256_KEY_LENGTH) <==> r
            == Err::<ZVec, Error>(Error::InvalidKeyLength),
        r matches Ok(p) ==> spec_gcm_open(key@, iv@.take(GCM_IV_LENGTH as int), data@, tag@)
            == Some(p@),
        r == Err::<ZVec, Error>(Error::DecryptionFailed) ==> spec_gcm_open(
            key@,
            iv@.take(GCM_IV_LENGTH as int),
            data@,
            tag@,
        ) is None,
        r is Err ==> (r == Err::<ZVec, Error>(Error::InvalidIvLength) || r == Err::<ZVec, Error>(
            Error::InvalidAeadTagLength,
        ) || r == Err::<ZVec, Error>(Error::InvalidKeyLength) || r == Err::<ZVec, Error>(
            Error::DecryptionFailed,
        )),
{
    let iv_t = if iv.len() == GCM_IV_LENGTH {
        iv
    } else if iv.len() == LEGACY_IV_LENGTH {
        vstd::slice::slice_subrange(iv, 0, GCM_IV_LENGTH)
    } else {
        return Err(Error::InvalidIvLength);
    };
    proof {
        assert(iv_t@ =~= iv@.take(GCM_IV_LENGTH as int));
    }
    if tag.len() != TAG_LENGTH {
        return Err(Error::InvalidAeadTagLength);
    }
    let result = if key.len() == AES_128_KEY_LENGTH {
        aes_gcm_open_128(data, iv_t, tag, key)
    } else if key.len() == AES_256_KEY_LENGTH {
        aes_gcm_open_256(data, iv_t, tag, key)
    } else {
        return Err(Error::InvalidKeyLength);
    };
    match result {
        Ok(plaintext) => Ok(ZVec::from_vec(plaintext)),
        Err(_) => Err(Error::DecryptionFailed),
    }
}

/// AES-GCM encryption of a message with a fresh random initialization
/// vector.  Keys of 16 and 32 bytes select AES-128 and AES-256.  Returns
/// `(ciphertext, iv, tag)`; decrypting the ciphertext with the same key,
/// the returned iv and tag yields the plaintext again.
pub fn aes_gcm_encrypt(plaintext: &[u8], key: &[u8]) -> (r: Result<
    (Vec<u8>, Vec<u8>, Vec<u8>),
    Error,
>)
    ensures
        r matches Ok((ct, iv, tag)) ==> ct@.len() == plaintext@.len() && iv@.len()
            == GCM_IV_LENGTH && tag@.len() == TAG_LENGTH && spec_gcm_open(key@, iv@, ct@, tag@)
            == Some(plaintext@),
        key@.len() != AES_128_KEY_LENGTH && key@.len() != AES_256_KEY_LENGTH ==> (r == Err::<(Vec<u8>, Vec<u8>, Vec<u8>), Error>(
            Error::InvalidKeyLength,
        ) || r == Err::<(Vec<u8>, Vec<u8>, Vec<u8>), Error>(Error::RandomNumberGenerationFailed)),
{
    let iv = match fill_random(GCM_IV_LENGTH) {
        Ok(v) => v,
        Err(_) => {
            return Err(Error::RandomNumberGenerationFailed);
        },
    };
    let result = if key.len() == AES_128_KEY_LENGTH {
        aes_gcm_seal_128(plaintext, iv.as_slice(), key)
    } else if key.len() == AES_256_KEY_LENGTH {
        aes_gcm_seal_256(plaintext, iv.as_slice(), key)
    } else {
        return Err(Error::InvalidKeyLength);
    };
    match result {
        Ok((ciphertext, tag)) => Ok((ciphertext, iv, tag)),
        Err(_) => Err(Error::EncryptionFailed),
    }
}

/// HKDF-SHA256 extract: one HMAC of the secret keyed with the salt.
pub fn hkdf_extract(secret: &[u8], salt: &[u8]) -> (r: Result<ZVec, Error>)
    ensures
        r is Ok,
        r matches Ok(prk) ==> prk@ == hmac_sha256_of(salt@, secret@),
{
    match hmac_sha256_call(salt, secret) {
        Ok(prk) => Ok(ZVec::from_vec(prk)),
        Err(e) => Err(e),
    }
}

/// Block `i` (1-based) of the HKDF-SHA256 output stream:
/// `T(i) = HMAC(prk, T(i-1) || info || i)` with `T(0)` empty.
pub open spec fn hkdf_block(prk: Seq<u8>, info: Seq<u8>, i: nat) -> Seq<u8>
    decreases i,
{
    if i == 0 {
        Seq::empty()
    } else {
        hmac_sha256_of(prk, hkdf_block(prk, info, (i - 1) as nat) + info + seq![i as u8])
    }
}

/// The first `n` blocks of the HKDF-SHA256 output stream, concatenated.
pub open spec fn hkdf_stream(prk: Seq<u8>, info: Seq<u8>, n: nat) -> Seq<u8>
    decreases n,
{
    if n == 0 {
        Seq::empty()
    } else {
        hkdf_stream(prk, info, (n - 1) as nat) + hkdf_block(prk, info, n)
    }
}

/// What HKDF-SHA256 expansion produces: the first `out_len` bytes of the
/// output stream.
pub open spec fn hkdf_expand_of(out_len: nat, prk: Seq<u8>, info: Seq<u8>) -> Seq<u8> {
    hkdf_stream(prk, info, ((out_len + 31) / 32) as nat).take(out_len as int)
}

/// HKDF-SHA256 expand: derives `out_len` bytes from a pseudorandom key and
/// an info string.  Fails only when `out_len` exceeds the 255-block limit of
/// the construction.
pub fn hkdf_expand(out_len: usize, prk: &[u8], info: &[u8]) -> (r: Result<ZVec, Error>)
    ensures
        out_len > HKDF_MAX_OUT_LEN <==> r == Err::<ZVec, Error>(Error::HKDFExpandFailed),
        out_len <= HKDF_MAX_OUT_LEN <==> r is Ok,
        r matches Ok(z) ==> z@ == hkdf_expand_of(out_len as nat, prk@, info@) && z@.len()
            == out_len,
{
    if out_len > HKDF_MAX_OUT_LEN {
        return Err(Error::HKDFExpandFailed);
    }
    let mut acc: Vec<u8> = Vec::new();
    let mut block: Vec<u8> = Vec::new();
    let mut i: u8 = 0;
    while acc.len() < out_len
        invariant
            out_len <= HKDF_MAX_OUT_LEN,
            acc@.len() == 32 * (i as nat),
            acc@ == hkdf_stream(prk@, info@, i as nat),
            block@ == hkdf_block(prk@, info@, i as nat),
            i > 0 ==> 32 * ((i - 1) as nat) < out_len,
        decreases out_len + 32 - acc.len(),
    {
        proof {
            assert(32 * (i as nat) < out_len);
            assert(i < 255) by {
                assert(out_len <= 8160);
            };
        }
        let mut msg: Vec<u8> = Vec::new();
        append_bytes(&mut msg, block.as_slice());
        append_bytes(&mut msg, info);
        i = i + 1;
        msg.push(i);
        proof {
            assert(msg@ =~= hkdf_block(prk@, info@, (i - 1) as nat) + info@ + seq![i as u8]);
        }
        block = match hmac_sha256_call(prk, msg.as_slice()) {
            Ok(t) => t,
            Err(e) => {
                proof {
                    assert(false);
                }
                return Err(e);
            },
        };
        append_bytes(&mut acc, block.as_slice());
    }
    proof {
        assert(32 * (i as nat) >= out_len);
        assert(32 * (i as nat) < out_len + 32) by {
            if i > 0 {
                assert(32 * ((i - 1) as nat) < out_len);
            }
        };
        assert(i as nat == ((out_len + 31) / 32) as nat) by (nonlinear_arith)
            requires
                32 * (i as nat) >= out_len,
                32 * (i as nat) < out_len + 32,
        ;
    }
    let mut out = acc;
    out.truncate(out_len);
    proof {
        assert(out@ =~= hkdf_expand_of(out_len as nat, prk@, info@));
    }
    Ok(ZVec::from_vec(out))
}

/// A high-entropy synthetic password from which an AES key may be derived.
#[derive(Debug)]
pub enum Password<'a> {
    /// Borrows an existing byte array.
    Ref(&'a [u8]),
    /// Owns a sensitive buffer holding the bytes.
    Owned(ZVec),
}

impl<'a> View for Password<'a> {
    type V = Seq<u8>;

    open spec fn view(&self) -> Seq<u8> {
        match self {
            Password::Ref(b) => b@,
            Password::Owned(z) => z@,
        }
    }
}

impl<'a> Password<'a> {
    /// The password bytes.
    pub fn get_key(&'a self) -> (r: &'a [u8])
        ensures
            r@ == self@,
    {
        match self {
            Password::Ref(b) => b,
            Password::Owned(z) => z.as_slice(),
        }
    }

    /// Derives a key from this password and a salt, using PBKDF2 with
    /// `PBKDF2_ITERATIONS` iterations.  The salt must be `SALT_LENGTH` bytes
    /// and the output length 16 or 32 bytes.
    pub fn derive_key_pbkdf2(&self, salt: &[u8], out_len: usize) -> (r: Result<ZVec, Error>)
        ensures
            salt@.len() != SALT_LENGTH <==> r == Err::<ZVec, Error>(Error::InvalidSaltLength),
            salt@.len() == SALT_LENGTH && out_len != AES_128_KEY_LENGTH && out_len
                != AES_256_KEY_LENGTH <==> r == Err::<ZVec, Error>(Error::InvalidKeyLength),
            salt@.len() == SALT_LENGTH && (out_len == AES_128_KEY_LENGTH || out_len
                == AES_256_KEY_LENGTH) <==> r is Ok,
            r matches Ok(k) ==> k@ == pbkdf2_hmac_sha256_of(
                self@,
                salt@,
                PBKDF2_ITERATIONS,
                out_len as nat,
            ) && k@.len() == out_len,
    {
        if salt.len() != SALT_LENGTH {
            return Err(Error::InvalidSaltLength);
        }
        if out_len != AES_128_KEY_LENGTH && out_len != AES_256_KEY_LENGTH {
            return Err(Error::InvalidKeyLength);
        }
        let mut out = ZVec::new(out_len);
        pbkdf2_call(self.get_key(), salt, PBKDF2_ITERATIONS, &mut out.data);
        Ok(out)
    }

    /// Derives a key from this password and a salt, using HKDF-SHA256.
    pub fn derive_key_hkdf(&self, salt: &[u8], out_len: usize) -> (r: Result<ZVec, Error>)
        ensures
            out_len > HKDF_MAX_OUT_LEN <==> r == Err::<ZVec, Error>(Error::HKDFExpandFailed),
            out_len <= HKDF_MAX_OUT_LEN <==> r is Ok,
            r matches Ok(k) ==> k@ == hkdf_expand_of(
                out_len as nat,
                hmac_sha256_of(salt@, self@),
                Seq::empty(),
            ) && k@.len() == out_len,
    {
        let prk = match hkdf_extract(self.get_key(), salt) {
            Ok(prk) => prk,
            Err(e) => {
                proof {
                    assert(false);
                }
                return Err(e);
            },
        };
        let info: [u8; 0] = [];
        let r = hkdf_expand(out_len, prk.as_slice(), &info);
        proof {
            assert(info@ =~= Seq::<u8>::empty());
        }
        r
    }

    /// Makes an owned password with the same bytes.
    pub fn try_clone(&self) -> (r: Result<Password<'static>, Error>)
        ensures
            r matches Ok(p) ==> p@ == self@,
            r is Ok,
    {
        Ok(Password::Owned(ZVec::from_bytes(self.get_key())))
    }
}

} // verus!
