//! Key blobs and the super-encryption wrapping layer.
//!
//! A blob returned by an engine may be stored either plain or wrapped once
//! more ("super-encrypted") with a per-user wrapping key that is only
//! available while the user's root secret is unlocked.  The blob's metadata
//! records which engine produced it and how it is wrapped.

use vstd::prelude::*;

use crate::crypto;
use crate::crypto::ZVec;
use crate::types::{Error, ErrorCode, ResponseCode, Uuid};

verus! {

/// A key blob on its way between the store and an engine: borrowed plain
/// bytes, owned plain bytes, or owned sensitive material that must be
/// re-wrapped before it is stored again.
#[derive(Debug)]
pub enum KeyBlob<'a> {
    /// Owned plaintext key material recovered from a super-encrypted blob.
    /// `force_reencrypt` is set when the wrapping that protected it is
    /// outdated and the blob must be wrapped afresh even without an upgrade.
    Sensitive { key: ZVec, force_reencrypt: bool },
    /// An owned blob that needs no re-wrapping.
    NonSensitive(Vec<u8>),
    /// A borrowed blob, used as-is.
    Ref(&'a [u8]),
}

impl<'a> View for KeyBlob<'a> {
    type V = Seq<u8>;

    open spec fn view(&self) -> Seq<u8> {
        match self {
            KeyBlob::Sensitive { key, .. } => key@,
            KeyBlob::NonSensitive(b) => b@,
            KeyBlob::Ref(b) => b@,
        }
    }
}

impl<'a> KeyBlob<'a> {
    /// Whether this blob must be re-wrapped before it is stored again, even
    /// when no engine upgrade happened.
    pub open spec fn spec_force_reencrypt(&self) -> bool {
        match self {
            KeyBlob::Sensitive { force_reencrypt, .. } => *force_reencrypt,
            _ => false,
        }
    }

    /// Decides whether this blob must be re-wrapped before storage.
    pub fn force_reencrypt(&self) -> (r: bool)
        ensures
            r == self.spec_force_reencrypt(),
    {
        match self {
            KeyBlob::Sensitive { force_reencrypt, .. } => *force_reencrypt,
            _ => false,
        }
    }

    /// The blob's bytes.
    pub fn as_slice<'s>(&'s self) -> (r: &'s [u8])
        ensures
            r@ == self@,
    {
        match self {
            KeyBlob::Sensitive { key, .. } => key.as_slice(),
            KeyBlob::NonSensitive(b) => b.as_slice(),
            KeyBlob::Ref(b) => b,
        }
    }
}

/// How a stored blob is wrapped.
#[derive(Debug)]
pub enum BlobWrapping {
    /// Stored as the engine produced it.
    Plain,
    /// Super-encrypted with the per-user wrapping key of the recorded
    /// generation; `iv` and `tag` authenticate the ciphertext.
    SuperEncrypted { generation: u32, iv: Vec<u8>, tag: Vec<u8> },
}

/// Mathematical view of a wrapping record.
pub enum BlobWrappingView {
    Plain,
    SuperEncrypted { generation: u32, iv: Seq<u8>, tag: Seq<u8> },
}

impl View for BlobWrapping {
    type V = BlobWrappingView;

    open spec fn view(&self) -> BlobWrappingView {
        match self {
            BlobWrapping::Plain => BlobWrappingView::Plain,
            BlobWrapping::SuperEncrypted { generation, iv, tag } => (
            BlobWrappingView::SuperEncrypted { generation: *generation, iv: iv@, tag: tag@ }),
        }
    }
}

/// Side-channel record attached to a stored blob: which engine produced it
/// and how it is wrapped.  A blob whose metadata does not identify the
/// engine currently serving its tier is corrupted and must be regenerated.
#[derive(Debug)]
pub struct BlobMetaData {
    pub km_uuid: Option<Uuid>,
    pub wrapping: BlobWrapping,
}

/// Mathematical view of blob metadata.
pub struct BlobMetaDataView {
    pub km_uuid: Option<Uuid>,
    pub wrapping: BlobWrappingView,
}

impl View for BlobMetaData {
    type V = BlobMetaDataView;

    open spec fn view(&self) -> BlobMetaDataView {
        BlobMetaDataView { km_uuid: self.km_uuid, wrapping: self.wrapping@ }
    }
}

impl BlobMetaDataView {
    /// Well-formed metadata: a super-encrypted record carries an
    /// initialization vector and a tag of the lengths the cipher produced.
    pub open spec fn wf(self) -> bool {
        self.wrapping matches BlobWrappingView::SuperEncrypted { iv, tag, .. } ==> iv.len()
            == crypto::GCM_IV_LENGTH && tag.len() == crypto::TAG_LENGTH
    }
}

impl BlobMetaData {
    /// Empty metadata: no producing engine recorded, no wrapping.
    pub fn new() -> (r: BlobMetaData)
        ensures
            r@.km_uuid is None,
            r@.wrapping is Plain,
    {
        BlobMetaData { km_uuid: None, wrapping: BlobWrapping::Plain }
    }

    /// Records the engine that produced the blob.
    pub fn add_km_uuid(&mut self, uuid: Uuid)
        ensures
            final(self)@.km_uuid == Some(uuid),
            final(self)@.wrapping == old(self)@.wrapping,
    {
        self.km_uuid = Some(uuid);
    }

    /// Decides whether the metadata is well-formed: a super-encrypted
    /// record must carry wrapping parameters of the cipher's lengths.
    pub fn check_wf(&self) -> (r: bool)
        ensures
            r == self@.wf(),
    {
        match &self.wrapping {
            BlobWrapping::Plain => true,
            BlobWrapping::SuperEncrypted { iv, tag, .. } => iv.len() == crypto::GCM_IV_LENGTH
                && tag.len() == crypto::TAG_LENGTH,
        }
    }

    /// The identifier of the engine that produced the blob, if recorded.
    pub fn km_uuid(&self) -> (r: Option<Uuid>)
        ensures
            r == self@.km_uuid,
    {
        self.km_uuid
    }
}

/// The per-user wrapping key, available only while the user's root secret
/// is unlocked.  `generation` changes when the wrapping key is rotated.
#[derive(Debug)]
pub struct SuperKey {
    key: ZVec,
    generation: u32,
}

impl SuperKey {
    /// The wrapping-key bytes.
    pub closed spec fn spec_key(&self) -> Seq<u8> {
        self.key@
    }

    /// The rotation generation of this wrapping key.
    pub closed spec fn spec_generation(&self) -> u32 {
        self.generation
    }

    /// A valid wrapping key has an AES key length.
    pub open spec fn wf(&self) -> bool {
        self.spec_key().len() == crypto::AES_128_KEY_LENGTH || self.spec_key().len()
            == crypto::AES_256_KEY_LENGTH
    }

    /// Wraps key material as the current super key of the given generation.
    pub fn new(key: ZVec, generation: u32) -> (r: Result<SuperKey, Error>)
        ensures
            key@.len() != crypto::AES_128_KEY_LENGTH && key@.len() != crypto::AES_256_KEY_LENGTH
                <==> r is Err,
            r matches Err(e) ==> e == Error::Km(ErrorCode::InvalidArgument),
            r matches Ok(sk) ==> sk.spec_key() == key@ && sk.spec_generation() == generation
                && sk.wf(),
    {
        if key.len() != crypto::AES_128_KEY_LENGTH && key.len() != crypto::AES_256_KEY_LENGTH {
            return Err(Error::Km(ErrorCode::InvalidArgument));
        }
        Ok(SuperKey { key, generation })
    }

    pub fn generation(&self) -> (r: u32)
        ensures
            r == self.spec_generation(),
    {
        self.generation
    }

    /// Super-encrypts a blob for storage.  The returned metadata carries the
    /// wrapping parameters; decrypting the returned ciphertext with this
    /// key, the recorded iv and tag yields the blob again.
    pub fn wrap_key_for_storage(&self, blob: &[u8]) -> (r: Result<(Vec<u8>, BlobMetaData), Error>)
        requires
            self.wf(),
        ensures
            r matches Err(e) ==> e == Error::Rc(ResponseCode::SystemError),
            r matches Ok((ct, meta)) ==> {
                &&& ct@.len() == blob@.len()
                &&& meta@.wf()
                &&& meta@.km_uuid is None
                &&& meta@.wrapping matches BlobWrappingView::SuperEncrypted { generation, iv, tag }
                    && generation == self.spec_generation() && crypto::spec_gcm_open(
                    self.spec_key(),
                    iv,
                    ct@,
                    tag,
                ) == Some(blob@)
            },
    {
        match crypto::aes_gcm_encrypt(blob, self.key.as_slice()) {
            Ok((ciphertext, iv, tag)) => Ok(
                (
                    ciphertext,
                    BlobMetaData {
                        km_uuid: None,
                        wrapping: BlobWrapping::SuperEncrypted {
                            generation: self.generation,
                            iv,
                            tag,
                        },
                    },
                ),
            ),
            Err(_) => Err(Error::sys()),
        }
    }
}

/// Unwraps a stored blob if its metadata says it is super-encrypted.
///
/// A plain blob is passed through borrowed.  A super-encrypted blob needs
/// the user's super key: without one the user is locked.  A blob wrapped by
/// an outdated key generation is marked `force_reencrypt` so that it is
/// re-wrapped with the current key on the next store.
pub fn unwrap_key_if_required<'a>(
    super_key: &Option<SuperKey>,
    metadata: &BlobMetaData,
    blob: &'a [u8],
) -> (r: Result<KeyBlob<'a>, Error>)
    requires
        super_key matches Some(sk) ==> sk.wf(),
        metadata@.wf(),
    ensures
        metadata@.wrapping is Plain ==> (r matches Ok(b) && b == KeyBlob::Ref(blob)),
        metadata@.wrapping is SuperEncrypted && super_key is None ==> r == Err::<
            KeyBlob<'a>,
            Error,
        >(Error::Rc(ResponseCode::Locked)),
        metadata@.wrapping matches BlobWrappingView::SuperEncrypted { generation, iv, tag }
            ==> (super_key matches Some(sk) ==> {
            &&& (r matches Ok(b) ==> (crypto::spec_gcm_open(sk.spec_key(), iv, blob@, tag)
                == Some(b@) && (b matches KeyBlob::Sensitive { force_reencrypt, .. }
                && force_reencrypt == (generation != sk.spec_generation()))))
            &&& (r is Err ==> r == Err::<KeyBlob<'a>, Error>(Error::Km(ErrorCode::InvalidKeyBlob))
                && crypto::spec_gcm_open(sk.spec_key(), iv, blob@, tag) is None)
        }),
{
    match &metadata.wrapping {
        BlobWrapping::Plain => Ok(KeyBlob::Ref(blob)),
        BlobWrapping::SuperEncrypted { generation, iv, tag } => {
            proof {
                assert(iv@.take(crypto::GCM_IV_LENGTH as int) =~= iv@);
            }
            match super_key {
                Some(sk) => {
                    match crypto::aes_gcm_decrypt(blob, iv.as_slice(), tag.as_slice(),
                        sk.key.as_slice()) {
                        Ok(key) => Ok(
                            KeyBlob::Sensitive {
                                key,
                                force_reencrypt: *generation != sk.generation,
                            },
                        ),
                        Err(_) => Err(Error::Km(ErrorCode::InvalidKeyBlob)),
                    }
                },
                None => Err(Error::Rc(ResponseCode::Locked)),
            }
        },
    }
}

/// Re-wraps a blob for storage when the blob that produced it was sensitive
/// (that is, was super-encrypted in the store).  A plain blob passes
/// through unchanged with no new metadata.
pub fn reencrypt_if_required(
    super_key: &Option<SuperKey>,
    key_blob: &KeyBlob<'_>,
    new_blob: &[u8],
) -> (r: Result<(Vec<u8>, Option<BlobMetaData>), Error>)
    requires
        super_key matches Some(sk) ==> sk.wf(),
    ensures
        !(key_blob is Sensitive) ==> (r matches Ok((data, meta)) && data@ == new_blob@
            && meta is None),
        key_blob is Sensitive && super_key is None ==> r == Err::<
            (Vec<u8>, Option<BlobMetaData>),
            Error,
        >(Error::Rc(ResponseCode::Locked)),
        key_blob is Sensitive ==> (super_key is Some ==> (r is Err ==> r == Err::<
            (Vec<u8>, Option<BlobMetaData>),
            Error,
        >(Error::Rc(ResponseCode::SystemError)))),
        key_blob is Sensitive ==> (super_key matches Some(sk) ==> (r matches Ok((data, meta))
            ==> {
            &&& data@.len() == new_blob@.len()
            &&& meta matches Some(m)
            &&& m@.wrapping matches BlobWrappingView::SuperEncrypted { generation, iv, tag }
                && generation == sk.spec_generation() && crypto::spec_gcm_open(
                sk.spec_key(),
                iv,
                data@,
                tag,
            ) == Some(new_blob@)
        })),
{
    match key_blob {
        KeyBlob::Sensitive { .. } => {
            match super_key {
                Some(sk) => {
                    match sk.wrap_key_for_storage(new_blob) {
                        Ok((data, meta)) => Ok((data, Some(meta))),
                        Err(e) => Err(e),
                    }
                },
                None => Err(Error::Rc(ResponseCode::Locked)),
            }
        },
        _ => Ok((vstd::slice::slice_to_vec(new_blob), None)),
    }
}

} // verus!
