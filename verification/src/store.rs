//! The metadata store's records, as this library sees them.
//!
//! The store itself is an external collaborator: the library prepares the
//! records it wants persisted and interprets the entries it gets back; the
//! reads and writes happen outside.

use vstd::prelude::*;

use crate::super_key::{BlobMetaData, BlobMetaDataView};
use crate::types::{InternalParam, InternalParamView, KeyDescriptor, KeyParameter, ParamView, Uuid};

verus! {

/// The owner class of a stored key.
#[derive(Clone, Copy, Debug, PartialEq, Eq, Structural)]
pub enum KeyType {
    /// A key owned by a client of the service.
    Client,
    /// A wrapping key of the super-encryption layer.
    Super,
    /// An attestation key.
    Attestation,
}

/// A key entry as loaded from the store: its row id, the engine blob with
/// its metadata when one is stored, and the key's parameters.
#[derive(Debug)]
pub struct KeyEntry {
    pub key_id: i64,
    pub blob_info: Option<(Vec<u8>, BlobMetaData)>,
    pub parameters: Vec<KeyParameter>,
}

/// Mathematical view of a key entry.
pub struct KeyEntryView {
    pub key_id: i64,
    pub blob_info: Option<(Seq<u8>, BlobMetaDataView)>,
    pub parameters: Seq<ParamView>,
}

impl View for KeyEntry {
    type V = KeyEntryView;

    open spec fn view(&self) -> KeyEntryView {
        KeyEntryView {
            key_id: self.key_id,
            blob_info: match self.blob_info {
                Some((b, m)) => Some((b@, m@)),
                None => None,
            },
            parameters: crate::types::params_view(self.parameters@),
        }
    }
}

/// Everything a freshly created key hands to the store in one transaction.
#[derive(Debug)]
pub struct NewKeyRecord {
    /// The identity the key is filed under.
    pub descriptor: KeyDescriptor,
    pub key_type: KeyType,
    /// The key's parameters, each with its enforcing security level.
    pub parameters: Vec<InternalParam>,
    /// The blob, already wrapped for storage where required.
    pub blob: Vec<u8>,
    /// The blob's metadata, naming the producing engine and the wrapping.
    pub blob_metadata: BlobMetaData,
    /// The leaf certificate, when the engine issued one.
    pub cert: Option<Vec<u8>>,
    /// The remaining certificate chain, concatenated.
    pub cert_chain: Option<Vec<u8>>,
    /// Creation time in milliseconds since the epoch.
    pub creation_date_ms: i64,
    /// The engine the key belongs to.
    pub km_uuid: Uuid,
}

/// Mathematical view of a new-key record.
pub struct NewKeyRecordView {
    pub descriptor: crate::types::KeyDescriptorView,
    pub key_type: KeyType,
    pub parameters: Seq<InternalParamView>,
    pub blob: Seq<u8>,
    pub blob_metadata: BlobMetaDataView,
    pub cert: Option<Seq<u8>>,
    pub cert_chain: Option<Seq<u8>>,
    pub creation_date_ms: i64,
    pub km_uuid: Uuid,
}

impl View for NewKeyRecord {
    type V = NewKeyRecordView;

    open spec fn view(&self) -> NewKeyRecordView {
        NewKeyRecordView {
            descriptor: self.descriptor@,
            key_type: self.key_type,
            parameters: crate::types::internal_params_view(self.parameters@),
            blob: self.blob@,
            blob_metadata: self.blob_metadata@,
            cert: match self.cert {
                Some(c) => Some(c@),
                None => None,
            },
            cert_chain: match self.cert_chain {
                Some(c) => Some(c@),
                None => None,
            },
            creation_date_ms: self.creation_date_ms,
            km_uuid: self.km_uuid,
        }
    }
}

/// A request to durably replace a stored blob: issued whenever an upgrade
/// or a forced re-wrap produced new bytes for an existing key.  Upgraded
/// blobs are persisted on every code path, else they would be lost on
/// restart.
#[derive(Debug)]
pub struct BlobPersistRequest {
    pub key_id: i64,
    pub blob: Vec<u8>,
    pub blob_metadata: BlobMetaData,
}

} // verus!
