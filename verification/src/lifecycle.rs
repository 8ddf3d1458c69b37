//! The caller-facing key lifecycle service for one security tier.
//!
//! The service composes the registry, the upgrade protocol, the admission
//! controller and the super-encryption layer into the create / import /
//! use / delete entry points.  The engine, the metadata store, the policy
//! engine and the clock answer through event values handed to each call;
//! the decisions between their answers are verified.

use vstd::prelude::*;

use crate::admission::{spec_begin_run, AdmissionTable};
use crate::device::{get_keymint_device, spec_resolve, DevicesMap, HardwareInfo, ServiceDirectory};
use crate::raw_device::{spec_op_outcome, EngineUpgradeEvents};
use crate::store::{BlobPersistRequest, KeyEntry, KeyType, NewKeyRecord};
use crate::super_key::{
    reencrypt_if_required, unwrap_key_if_required, BlobMetaData, BlobWrapping, KeyBlob, SuperKey,
};
use crate::types::{
    clone_params, has_tag, spec_has_tag, BeginResult, Certificate, Domain, Error, ErrorCode,
    HardwareAuthToken, InternalParam,
    KeyCreationResult, KeyDescriptor, KeyParameter, KeyParameterValue, KeyPurpose, ParamView,
    ResponseCode, SecurityLevel, Tag, Uuid,
};
use crate::upgrade::{spec_run_upgrade_protocol, UpgradeState};

verus! {

/// The timestamp meaning "no expiry" for certificates of asymmetric keys.
pub const UNDEFINED_NOT_AFTER: i64 = 253402300799000;

/// What a caller gets back about a created key.
#[derive(Debug)]
pub struct KeyMetadata {
    /// The identity to address the key by from now on.
    pub key: KeyDescriptor,
    pub key_security_level: SecurityLevel,
    /// The leaf certificate, when one was issued.
    pub certificate: Option<Vec<u8>>,
    /// The rest of the certificate chain, concatenated.
    pub certificate_chain: Option<Vec<u8>>,
    /// The key's parameters with their enforcing security levels.
    pub authorizations: Vec<InternalParam>,
    pub modification_time_ms: i64,
}

/// What a caller gets back from converting a storage key.
#[derive(Debug)]
pub struct EphemeralStorageKeyResponse {
    pub ephemeral_key: Vec<u8>,
    /// The re-encoded blob, when the engine demanded an upgrade on the way.
    pub upgraded_blob: Option<Vec<u8>>,
}

/// What a caller gets back from `create_operation`.
#[derive(Debug)]
pub struct CreateOperationResponse {
    /// The engine-issued reference to the live operation.
    pub op_id: u64,
    /// The challenge a timestamp token must answer, when one is needed.
    pub operation_challenge: Option<i64>,
    /// Engine-suggested follow-up parameters, when any.
    pub parameters: Option<Vec<KeyParameter>>,
    /// The upgraded blob — surfaced only for caller-managed raw blobs.
    pub upgraded_blob: Option<Vec<u8>>,
}

/// The concatenation of a certificate list.
pub open spec fn spec_concat_certs(cs: Seq<Certificate>) -> Seq<u8>
    decreases cs.len(),
{
    if cs.len() == 0 {
        Seq::empty()
    } else {
        cs[0]@ + spec_concat_certs(cs.drop_first())
    }
}

/// Unifies the possible shapes of an engine's certificate chain: the first
/// entry is the leaf; everything after it is flattened into one
/// concatenated buffer, whether it arrived as separate certificates or as
/// one pre-concatenated buffer.
pub fn unify_certificate_chain(chain: Vec<Certificate>) -> (r: (Option<Vec<u8>>, Option<Vec<u8>>))
    ensures
        chain@.len() == 0 ==> r.0 is None && r.1 is None,
        chain@.len() >= 1 ==> (r.0 matches Some(leaf) && leaf@ == chain@[0]@),
        chain@.len() == 1 ==> r.1 is None,
        chain@.len() > 1 ==> (r.1 matches Some(rest) && rest@ == spec_concat_certs(
            chain@.drop_first(),
        )),
{
    let ghost cv = chain@;
    if chain.len() == 0 {
        return (None, None);
    }
    let mut chain = chain;
    let leaf = chain.remove(0);
    proof {
        assert(chain@ =~= cv.drop_first());
    }
    if chain.len() == 0 {
        return (Some(leaf.encoded_certificate), None);
    }
    let mut rest: Vec<u8> = Vec::new();
    let mut i: usize = 0;
    while i < chain.len()
        invariant
            i <= chain@.len(),
            rest@ == spec_concat_certs(chain@.take(i as int)),
        decreases chain@.len() - i,
    {
        let mut j: usize = 0;
        let cert = &chain[i];
        while j < cert.encoded_certificate.len()
            invariant
                j <= cert.encoded_certificate@.len(),
                i < chain@.len(),
                cert == chain@[i as int],
                rest@ == spec_concat_certs(chain@.take(i as int))
                    + cert.encoded_certificate@.take(j as int),
            decreases cert.encoded_certificate@.len() - j,
        {
            rest.push(cert.encoded_certificate[j]);
            j += 1;
            proof {
                assert(spec_concat_certs(chain@.take(i as int))
                    + cert.encoded_certificate@.take(j as int) =~= (spec_concat_certs(
                    chain@.take(i as int),
                ) + cert.encoded_certificate@.take(j - 1int)).push(
                    cert.encoded_certificate@[j - 1int],
                ));
            }
        }
        i += 1;
        proof {
            assert(cert.encoded_certificate@.take(cert.encoded_certificate@.len() as int)
                =~= cert.encoded_certificate@);
            lemma_concat_certs_step(chain@, i as int);
        }
    }
    proof {
        assert(chain@.take(chain@.len() as int) =~= chain@);
    }
    (Some(leaf.encoded_certificate), Some(rest))
}

/// Taking one more certificate appends exactly its bytes.
proof fn lemma_concat_certs_step(cs: Seq<Certificate>, i: int)
    requires
        0 < i <= cs.len(),
    ensures
        spec_concat_certs(cs.take(i)) == spec_concat_certs(cs.take(i - 1)) + cs[i - 1]@,
    decreases i,
{
    if i == 1 {
        assert(cs.take(1).drop_first() =~= cs.take(0));
        assert(spec_concat_certs(cs.take(1)) == cs.take(1)[0]@ + spec_concat_certs(cs.take(0)));
        assert(cs[0]@ + Seq::<u8>::empty() =~= cs[0]@);
        assert(Seq::<u8>::empty() + cs[0]@ =~= cs[0]@);
    } else {
        assert(cs.take(i)[0] == cs[0]);
        assert(cs.take(i).drop_first() =~= cs.drop_first().take(i - 1));
        assert(cs.take(i - 1)[0] == cs[0]);
        assert(cs.take(i - 1).drop_first() =~= cs.drop_first().take(i - 2));
        lemma_concat_certs_step(cs.drop_first(), i - 1);
        assert(cs.drop_first()[i - 2] == cs[i - 1]);
        assert(cs[0]@ + (spec_concat_certs(cs.drop_first().take(i - 2)) + cs[i - 1]@) =~= (cs[0]@
            + spec_concat_certs(cs.drop_first().take(i - 2))) + cs[i - 1]@);
    }
}

/// The purpose a `begin` request asks for: the first purpose parameter's
/// value.  A missing purpose, or a purpose tag carrying a value of another
/// kind, is a malformed request.
pub open spec fn spec_operation_purpose(params: Seq<ParamView>) -> Result<KeyPurpose, Error> {
    match crate::types::spec_find_tag(params, Tag::Purpose) {
        None => Err(Error::Km(ErrorCode::InvalidArgument)),
        Some(p) => match p.value {
            crate::types::ValueView::KeyPurpose(purpose) => Ok(purpose),
            _ => Err(Error::Km(ErrorCode::InvalidArgument)),
        },
    }
}

/// Extracts the requested operation purpose from the parameters.
pub fn operation_purpose(params: &Vec<KeyParameter>) -> (r: Result<KeyPurpose, Error>)
    ensures
        r == spec_operation_purpose(crate::types::params_view(params@)),
{
    let ghost pv = crate::types::params_view(params@);
    match crate::types::find_tag_index(params, Tag::Purpose) {
        None => {
            proof {
                crate::types::lemma_find_tag_sound(pv, Tag::Purpose);
            }
            Err(Error::Km(ErrorCode::InvalidArgument))
        },
        Some(i) => {
            match &params[i].value {
                KeyParameterValue::KeyPurpose(purpose) => Ok(*purpose),
                _ => Err(Error::Km(ErrorCode::InvalidArgument)),
            }
        },
    }
}

/// The parameter list with every purpose parameter removed: some engines
/// reject `begin` when the purpose tag is still present.
pub open spec fn spec_strip_purpose(params: Seq<ParamView>) -> Seq<ParamView>
    decreases params.len(),
{
    if params.len() == 0 {
        Seq::empty()
    } else {
        let rest = spec_strip_purpose(params.drop_first());
        if params[0].tag == Tag::Purpose {
            rest
        } else {
            seq![params[0]] + rest
        }
    }
}

/// Taking one more parameter appends it to the stripped list exactly when
/// it is not a purpose parameter.
proof fn lemma_strip_purpose_step(params: Seq<ParamView>, i: int)
    requires
        0 < i <= params.len(),
    ensures
        spec_strip_purpose(params.take(i)) == if params[i - 1].tag == Tag::Purpose {
            spec_strip_purpose(params.take(i - 1))
        } else {
            spec_strip_purpose(params.take(i - 1)).push(params[i - 1])
        },
    decreases i,
{
    if i == 1 {
        assert(params.take(1).drop_first() =~= params.take(0));
        assert(params.take(1)[0] == params[0]);
        if params[0].tag != Tag::Purpose {
            assert(seq![params[0]] + Seq::<ParamView>::empty() =~= Seq::<
                ParamView,
            >::empty().push(params[0]));
        }
    } else {
        assert(params.take(i)[0] == params[0]);
        assert(params.take(i).drop_first() =~= params.drop_first().take(i - 1));
        assert(params.take(i - 1)[0] == params[0]);
        assert(params.take(i - 1).drop_first() =~= params.drop_first().take(i - 2));
        lemma_strip_purpose_step(params.drop_first(), i - 1);
        assert(params.drop_first()[i - 2] == params[i - 1]);
        if params[0].tag == Tag::Purpose {
        } else {
            if params[i - 1].tag == Tag::Purpose {
            } else {
                assert(seq![params[0]] + spec_strip_purpose(params.drop_first().take(i - 2)).push(
                    params[i - 1],
                ) =~= (seq![params[0]] + spec_strip_purpose(params.drop_first().take(i - 2))).push(
                    params[i - 1],
                ));
            }
        }
    }
}

/// Removes the purpose parameters before the list is handed to `begin`.
pub fn strip_purpose_params(params: &Vec<KeyParameter>) -> (r: Vec<KeyParameter>)
    ensures
        crate::types::params_view(r@) == spec_strip_purpose(crate::types::params_view(params@)),
{
    let ghost pv = crate::types::params_view(params@);
    let mut r: Vec<KeyParameter> = Vec::new();
    let mut i: usize = 0;
    while i < params.len()
        invariant
            i <= params@.len(),
            pv == crate::types::params_view(params@),
            crate::types::params_view(r@) == spec_strip_purpose(pv.take(i as int)),
        decreases params@.len() - i,
    {
        if params[i].tag != Tag::Purpose {
            let ghost prev = r@;
            r.push(params[i].clone());
            proof {
                assert(crate::types::params_view(r@) =~= crate::types::params_view(prev).push(
                    pv[i as int],
                ));
            }
        }
        i += 1;
        proof {
            lemma_strip_purpose_step(pv, i as int);
        }
    }
    proof {
        assert(pv.take(pv.len() as int) =~= pv);
    }
    r
}

/// The import format implied by the algorithm parameter: raw bytes for
/// symmetric algorithms, a standard encoding for asymmetric ones.  A
/// missing or malformed algorithm parameter is a malformed request.
pub open spec fn spec_import_format(params: Seq<ParamView>) -> Result<
    crate::types::KeyFormat,
    Error,
> {
    match crate::types::spec_find_tag(params, Tag::Algorithm) {
        None => Err(Error::Km(ErrorCode::InvalidArgument)),
        Some(p) => match p.value {
            crate::types::ValueView::Algorithm(crate::types::Algorithm::Aes) => Ok(
                crate::types::KeyFormat::Raw,
            ),
            crate::types::ValueView::Algorithm(crate::types::Algorithm::Hmac) => Ok(
                crate::types::KeyFormat::Raw,
            ),
            crate::types::ValueView::Algorithm(crate::types::Algorithm::TripleDes) => Ok(
                crate::types::KeyFormat::Raw,
            ),
            crate::types::ValueView::Algorithm(crate::types::Algorithm::Rsa) => Ok(
                crate::types::KeyFormat::Pkcs8,
            ),
            crate::types::ValueView::Algorithm(crate::types::Algorithm::Ec) => Ok(
                crate::types::KeyFormat::Pkcs8,
            ),
            _ => Err(Error::Km(ErrorCode::InvalidArgument)),
        },
    }
}

/// Determines the wire format for imported key material.
pub fn import_key_format(params: &Vec<KeyParameter>) -> (r: Result<crate::types::KeyFormat, Error>)
    ensures
        r == spec_import_format(crate::types::params_view(params@)),
{
    let ghost pv = crate::types::params_view(params@);
    match crate::types::find_tag_index(params, Tag::Algorithm) {
        None => {
            proof {
                crate::types::lemma_find_tag_sound(pv, Tag::Algorithm);
            }
            Err(Error::Km(ErrorCode::InvalidArgument))
        },
        Some(i) => {
            match &params[i].value {
                KeyParameterValue::Algorithm(crate::types::Algorithm::Aes) => Ok(
                    crate::types::KeyFormat::Raw,
                ),
                KeyParameterValue::Algorithm(crate::types::Algorithm::Hmac) => Ok(
                    crate::types::KeyFormat::Raw,
                ),
                KeyParameterValue::Algorithm(crate::types::Algorithm::TripleDes) => Ok(
                    crate::types::KeyFormat::Raw,
                ),
                KeyParameterValue::Algorithm(crate::types::Algorithm::Rsa) => Ok(
                    crate::types::KeyFormat::Pkcs8,
                ),
                KeyParameterValue::Algorithm(crate::types::Algorithm::Ec) => Ok(
                    crate::types::KeyFormat::Pkcs8,
                ),
                _ => Err(Error::Km(ErrorCode::InvalidArgument)),
            }
        },
    }
}


/// The identity offset separating users: a caller uid encodes its user.
pub const AID_USER_OFFSET: u32 = 100000;

/// The user a caller uid belongs to.
pub fn uid_to_android_user(uid: u32) -> (r: u32)
    ensures
        r == uid / AID_USER_OFFSET,
{
    uid / AID_USER_OFFSET
}

/// The id of the first authenticator of the given kind, or -1 when none is
/// listed.
pub open spec fn spec_sid_for(
    auths: Seq<crate::types::AuthenticatorSpec>,
    kind: crate::types::HardwareAuthenticatorType,
) -> i64
    decreases auths.len(),
{
    if auths.len() == 0 {
        -1i64
    } else if auths[0].authenticator_type == kind {
        auths[0].authenticator_id
    } else {
        spec_sid_for(auths.drop_first(), kind)
    }
}

/// Extracts the id of the first authenticator of the given kind.
pub fn sid_for(
    auths: &Vec<crate::types::AuthenticatorSpec>,
    kind: crate::types::HardwareAuthenticatorType,
) -> (r: i64)
    ensures
        r == spec_sid_for(auths@, kind),
{
    proof {
        assert(auths@.skip(0) =~= auths@);
    }
    let mut i: usize = 0;
    while i < auths.len()
        invariant
            i <= auths@.len(),
            spec_sid_for(auths@, kind) == spec_sid_for(auths@.skip(i as int), kind),
        decreases auths@.len() - i,
    {
        proof {
            assert(auths@.skip(i as int)[0] == auths@[i as int]);
            assert(auths@.skip(i as int).drop_first() =~= auths@.skip(i + 1));
        }
        if auths[i].authenticator_type == kind {
            return auths[i].authenticator_id;
        }
        i += 1;
    }
    proof {
        assert(auths@.skip(auths@.len() as int) =~= Seq::<
            crate::types::AuthenticatorSpec,
        >::empty());
    }
    -1
}

/// How an attestation key was resolved for a generate request.
#[derive(Debug)]
pub enum AttestationKeyInfo {
    /// A user-generated attestation key loaded from the store.
    UserGenerated { key_id: i64, blob: Vec<u8>, issuer_subject: Vec<u8> },
    /// A pre-provisioned attestation key from the remote-provisioning
    /// collaborator, with its issuer and certificate chain.
    RkpdProvisioned { attestation_key_blob: Vec<u8>, issuer_subject: Vec<u8>, attestation_certs: Vec<u8> },
}

/// The attestation-key request handed to the engine alongside generation:
/// the (possibly upgraded) attestation blob and the issuer it names.
#[derive(Debug)]
pub struct AttestationRequest {
    pub key_blob: Vec<u8>,
    pub issuer_subject: Vec<u8>,
}

/// What an upgrade-wrapped engine call yields at this layer: the payload,
/// the new blob when one was made, the blob-replacement record owed to the
/// store, and whether that record's write already happened.
#[derive(Debug)]
pub struct UpgradeOutcome<T> {
    pub payload: T,
    pub upgraded_blob: Option<Vec<u8>>,
    pub persist: Option<BlobPersistRequest>,
    pub persisted: bool,
}


/// The external answers `generate_key` consults.
#[derive(Debug)]
pub struct GenerateKeyEnv<'a> {
    /// The requesting caller.
    pub caller_uid: u32,
    /// Whether the caller holds the rebind capability on the key's identity.
    pub rebind_granted: bool,
    /// The attestation key resolved for the request, when one was asked for.
    pub attest_key_info: Option<AttestationKeyInfo>,
    /// Answers for the mandatory parameters.
    pub required: RequiredParamsEnv,
    /// The engine's replies to `generateKey`, upgrade-wrapped for the
    /// attestation key's blob.
    pub generate: EngineUpgradeEvents<KeyCreationResult>,
    /// The certificate post-processor's replacement chain, when enabled.
    pub processed_certificate_chain: Option<Vec<Certificate>>,
    /// How the new blob is protected in the store.
    pub wrapping: StorageWrapping<'a>,
    /// The service directory, for the remote-provisioning component.
    pub dir: &'a ServiceDirectory,
    pub creation_date_ms: i64,
    /// The store's reply filing the new key.
    pub store_key_id: Result<i64, Error>,
    /// The store's reply to a forced re-wrap of the attestation blob.
    pub reencrypt_store: Result<(), Error>,
}

/// The external answers `import_key` consults.
#[derive(Debug)]
pub struct ImportKeyEnv<'a> {
    pub caller_uid: u32,
    pub rebind_granted: bool,
    pub required: RequiredParamsEnv,
    /// The engine's reply to `importKey`.
    pub import: Result<KeyCreationResult, ErrorCode>,
    pub wrapping: StorageWrapping<'a>,
    pub creation_date_ms: i64,
    pub store_key_id: Result<i64, Error>,
}


/// The external answers `import_wrapped_key` consults.
#[derive(Debug)]
pub struct ImportWrappedKeyEnv<'a> {
    pub caller_uid: u32,
    pub rebind_granted: bool,
    /// The store's reply loading the wrapping key.
    pub wrapping_key_entry: Result<KeyEntry, Error>,
    /// The user's super key, for unwrapping the wrapping key's blob.
    pub super_key: Option<SuperKey>,
    /// The engine's replies to `importWrappedKey`, upgrade-wrapped for the
    /// wrapping key's blob.
    pub import: EngineUpgradeEvents<KeyCreationResult>,
    pub wrapping: StorageWrapping<'a>,
    pub creation_date_ms: i64,
    pub store_key_id: Result<i64, Error>,
    /// The store's reply to a forced re-wrap of the wrapping key's blob.
    pub reencrypt_store: Result<(), Error>,
}

/// What `import_wrapped_key` hands the engine besides the wrapped data:
/// the masking key and the authenticator bindings it resolved.
#[derive(Debug)]
pub struct ImportWrappedRequest {
    pub masking_key: Vec<u8>,
    pub pw_sid: i64,
    pub fp_sid: i64,
}

/// The empty masking key: thirty-two zero bytes.
pub fn zero_masking_key() -> (r: Vec<u8>)
    ensures
        r@ == Seq::new(32, |i: int| 0u8),
{
    let mut data: Vec<u8> = Vec::new();
    let mut i: usize = 0;
    while i < 32
        invariant
            i <= 32,
            data@ == Seq::new(i as nat, |k: int| 0u8),
        decreases 32 - i,
    {
        data.push(0);
        i += 1;
        proof {
            assert(data@ =~= Seq::new(i as nat, |k: int| 0u8));
        }
    }
    data
}


/// The external answers `create_operation` consults.
#[derive(Debug)]
pub struct CreateOperationEnv {
    pub caller_uid: u32,
    /// Whether the caller may use the key (checked here only for raw
    /// blobs; for stored keys the store's load enforces it).
    pub use_granted: bool,
    /// Whether the caller may request a forced operation.
    pub req_forced_op_granted: bool,
    /// The store's reply loading the key, for non-raw domains.
    pub load_entry: Result<KeyEntry, Error>,
    /// The user's super key, for unwrapping the stored blob.
    pub super_key: Option<SuperKey>,
    /// The enforcement collaborator's immediate authorization.
    pub auth_token: Result<Option<HardwareAuthToken>, Error>,
    /// The engine's replies to successive `begin` attempts, first round.
    pub begin_first: Vec<Result<BeginResult, ErrorCode>>,
    /// The engine's reply to upgrading the blob, when demanded.
    pub upgrade: Result<Vec<u8>, Error>,
    /// The store's reply writing the upgraded blob.
    pub persist: Result<(), Error>,
    /// The engine's replies to `begin` attempts on the upgraded blob.
    pub begin_second: Vec<Result<BeginResult, ErrorCode>>,
    /// The store's reply to a forced re-wrap of an unchanged blob.
    pub reencrypt_store: Result<(), Error>,
    /// Creation time used for the admission record.
    pub created_at: u64,
    /// The key's descriptor as the store knows it, loaded best-effort for
    /// the audit log when the engine reports an invalid blob.
    pub audit_descriptor: Option<KeyDescriptor>,
}


/// Saturating addition, for summing eviction counters.
pub open spec fn spec_sat_add(a: usize, b: usize) -> usize {
    if a + b <= usize::MAX {
        (a + b) as usize
    } else {
        usize::MAX
    }
}

/// Adds two counters, capping at the largest representable value.
fn sat_add(a: usize, b: usize) -> (r: usize)
    ensures
        r == spec_sat_add(a, b),
{
    if a > usize::MAX - b {
        usize::MAX
    } else {
        a + b
    }
}

/// The operation's blob is resolved: a raw blob passes its permission
/// checks and carries bytes, a stored key loads with a blob and well-formed
/// metadata.
pub open spec fn spec_blob_resolved(
    key: crate::types::KeyDescriptorView,
    forced: bool,
    env: &CreateOperationEnv,
) -> bool {
    match key.domain {
        Domain::Blob => env.use_granted && (forced ==> env.req_forced_op_granted) && key.blob
            is Some,
        _ => env.load_entry matches Ok(entry) && (entry@.blob_info matches Some((_, meta))
            && meta.wf()),
    }
}

/// The metadata of the operation's blob: empty for a raw blob, the stored
/// record's for a stored key.  Meaningful once the blob is resolved.
pub open spec fn spec_op_blob_meta(
    key: crate::types::KeyDescriptorView,
    env: &CreateOperationEnv,
) -> crate::super_key::BlobMetaDataView {
    match key.domain {
        Domain::Blob => crate::super_key::BlobMetaDataView {
            km_uuid: None,
            wrapping: crate::super_key::BlobWrappingView::Plain,
        },
        _ => match env.load_entry {
            Ok(entry) => match entry@.blob_info {
                Some((_, meta)) => meta,
                None => crate::super_key::BlobMetaDataView {
                    km_uuid: None,
                    wrapping: crate::super_key::BlobWrappingView::Plain,
                },
            },
            Err(_) => crate::super_key::BlobMetaDataView {
                km_uuid: None,
                wrapping: crate::super_key::BlobWrappingView::Plain,
            },
        },
    }
}

/// The bytes of the operation's blob, as handed in.  Meaningful once the
/// blob is resolved.
pub open spec fn spec_op_blob_bytes(
    key: crate::types::KeyDescriptorView,
    env: &CreateOperationEnv,
) -> Seq<u8> {
    match key.domain {
        Domain::Blob => match key.blob {
            Some(b) => b,
            None => Seq::empty(),
        },
        _ => match env.load_entry {
            Ok(entry) => match entry@.blob_info {
                Some((b, _)) => b,
                None => Seq::empty(),
            },
            Err(_) => Seq::empty(),
        },
    }
}

/// The request reaches the engine's `begin`: the blob is resolved, the
/// purpose is well-formed, the enforcement collaborator authorized, and the
/// blob unwraps.
pub open spec fn spec_begin_reached(
    key: crate::types::KeyDescriptorView,
    params: Seq<ParamView>,
    forced: bool,
    env: &CreateOperationEnv,
) -> bool {
    &&& spec_blob_resolved(key, forced, env)
    &&& spec_operation_purpose(params) is Ok
    &&& env.auth_token is Ok
    &&& spec_unwrap_ok(env.super_key, spec_op_blob_meta(key, env), spec_op_blob_bytes(key, env))
}

/// The caller-facing response reports exactly what the engine's granting
/// `begin` reply carried: its operation reference, its challenge when the
/// engine demands timestamp tokens, and its follow-up parameters.
pub open spec fn spec_response_matches(
    hw: HardwareInfo,
    br: BeginResult,
    resp: CreateOperationResponse,
) -> bool {
    &&& br.operation matches Some(op) && resp.op_id == op
    &&& resp.operation_challenge == (if hw.timestamp_token_required {
        Some(br.challenge)
    } else {
        Option::<i64>::None
    })
    &&& (br.params@.len() == 0 ==> resp.parameters is None)
    &&& (br.params@.len() > 0 ==> (resp.parameters matches Some(ps) && ps@ == br.params@))
}

/// Everything one `create_operation` call leaves behind: the caller-facing
/// result, the blob-replacement record owed to the store, the audit signal
/// for a detected integrity violation, and the parameters that were handed
/// to the engine's `begin`.
#[derive(Debug)]
pub struct CreateOperationRun {
    pub result: Result<CreateOperationResponse, Error>,
    pub persist: Option<BlobPersistRequest>,
    /// Set when the engine reported an invalid blob: the key to name in
    /// the audit log, when its descriptor could be looked up.
    pub audit_integrity_violation: Option<KeyDescriptor>,
    /// What was handed to `begin`: the caller's parameters with the
    /// purpose stripped.
    pub engine_params: Option<Vec<KeyParameter>>,
    /// How many eviction cycles the admission runs needed.
    pub eviction_cycles: usize,
}


/// The identity a new key is filed under: an app-domain key is filed under
/// the calling uid with no raw blob; any other identity is kept as given.
pub open spec fn spec_effective_identity(
    key: crate::types::KeyDescriptorView,
    caller_uid: u32,
) -> crate::types::KeyDescriptorView {
    if key.domain == Domain::App {
        crate::types::KeyDescriptorView {
            domain: Domain::App,
            nspace: caller_uid as i64,
            alias: key.alias,
            blob: None,
        }
    } else {
        key
    }
}

/// The user a caller uid belongs to, as recorded with a new key.
pub open spec fn spec_user_id(caller_uid: u32) -> i32 {
    (caller_uid / AID_USER_OFFSET) as i32
}

/// A stored blob can be recovered: it is plain, or the user's super key is
/// present and authenticates it.
pub open spec fn spec_unwrap_ok(
    super_key: Option<SuperKey>,
    meta: crate::super_key::BlobMetaDataView,
    blob: Seq<u8>,
) -> bool {
    match meta.wrapping {
        crate::super_key::BlobWrappingView::Plain => true,
        crate::super_key::BlobWrappingView::SuperEncrypted { iv, tag, .. } => super_key
            matches Some(sk) && crate::crypto::spec_gcm_open(sk.spec_key(), iv, blob, tag)
            is Some,
    }
}

/// Whether a recovered blob must be re-wrapped for storage because its
/// wrapping key generation is outdated.
pub open spec fn spec_needs_rewrap(
    super_key: Option<SuperKey>,
    meta: crate::super_key::BlobMetaDataView,
) -> bool {
    meta.wrapping matches crate::super_key::BlobWrappingView::SuperEncrypted { generation, .. }
        && (super_key matches Some(sk) && sk.spec_generation() != generation)
}


/// A generate or import request that passed its own validations: the
/// identity names an alias unless raw, the caller may rebind it, and the
/// mandatory-parameter checks are in order.
pub open spec fn spec_generate_request_ok<'a>(
    key: crate::types::KeyDescriptorView,
    params: Seq<ParamView>,
    env: &GenerateKeyEnv<'a>,
) -> bool {
    &&& key.domain == Domain::Blob || key.alias is Some
    &&& env.rebind_granted
    &&& spec_required_params_ok(params, env.required)
}

/// Whether the tier has a remote-provisioning component declared.
pub open spec fn spec_rpc_declared(tier: SecurityLevel, dir: &ServiceDirectory) -> bool {
    ||| tier == SecurityLevel::TrustedEnvironment && dir.rpc_default_declared
    ||| tier == SecurityLevel::Strongbox && dir.rpc_strongbox_declared
}

/// The certificate chain a remotely provisioned key is filed with: the
/// post-processed chain when one came back, else the engine's chain with
/// the provisioned certificates appended as one entry.
pub open spec fn spec_rkpd_chain(
    chain: Seq<Certificate>,
    attestation_certs: Vec<u8>,
    processed: Option<Vec<Certificate>>,
) -> Seq<Certificate> {
    match processed {
        Some(p) => p@,
        None => chain.push((Certificate { encoded_certificate: attestation_certs })),
    }
}


/// The identity a wrapped import is filed under: an app key under the
/// caller, a system key under its namespace, never carrying the wrapped
/// data onward.
pub open spec fn spec_wrapped_identity(
    key: crate::types::KeyDescriptorView,
    caller_uid: u32,
) -> crate::types::KeyDescriptorView {
    if key.domain == Domain::App {
        crate::types::KeyDescriptorView {
            domain: Domain::App,
            nspace: caller_uid as i64,
            alias: key.alias,
            blob: None,
        }
    } else {
        crate::types::KeyDescriptorView {
            domain: Domain::Selinux,
            nspace: key.nspace,
            alias: key.alias,
            blob: None,
        }
    }
}

/// A wrapped-import request that passed its validations and whose wrapping
/// key loads and unwraps: the new identity is complete, the wrapping key is
/// store-backed, the caller may rebind, and the wrapping blob is
/// recoverable.
pub open spec fn spec_import_wrapped_request_ok<'a>(
    key: crate::types::KeyDescriptorView,
    wrapping_key: crate::types::KeyDescriptorView,
    env: &ImportWrappedKeyEnv<'a>,
) -> bool {
    &&& (key.domain == Domain::App || key.domain == Domain::Selinux) && key.blob is Some
        && key.alias is Some
    &&& wrapping_key.domain != Domain::Blob
    &&& env.rebind_granted
    &&& env.wrapping_key_entry matches Ok(entry) && (entry@.blob_info matches Some((b, meta))
        && meta.wf() && spec_unwrap_ok(env.super_key, meta, b))
}

/// The wrapping key's metadata, where the request resolved one.
pub open spec fn spec_wrapping_meta<'a>(
    env: &ImportWrappedKeyEnv<'a>,
) -> crate::super_key::BlobMetaDataView {
    match env.wrapping_key_entry {
        Ok(entry) => match entry@.blob_info {
            Some((_, meta)) => meta,
            None => crate::super_key::BlobMetaDataView {
                km_uuid: None,
                wrapping: crate::super_key::BlobWrappingView::Plain,
            },
        },
        Err(_) => crate::super_key::BlobMetaDataView {
            km_uuid: None,
            wrapping: crate::super_key::BlobWrappingView::Plain,
        },
    }
}

/// How a fresh blob is protected before it is stored: plain, or
/// super-encrypted with the user's wrapping key.
#[derive(Debug)]
pub enum StorageWrapping<'a> {
    Plain,
    SuperEncrypt(&'a SuperKey),
}

/// Copies a list of internal parameters.
fn clone_internal_params(params: &Vec<InternalParam>) -> (r: Vec<InternalParam>)
    ensures
        crate::types::internal_params_view(r@) == crate::types::internal_params_view(params@),
{
    let mut r: Vec<InternalParam> = Vec::new();
    let mut i: usize = 0;
    while i < params.len()
        invariant
            i <= params@.len(),
            r@.len() == i,
            forall|k: int| 0 <= k < i ==> #[trigger] r@[k]@ == params@[k]@,
        decreases params@.len() - i,
    {
        let p = &params[i];
        r.push(InternalParam { param: p.param.clone(), security_level: p.security_level });
        i += 1;
    }
    proof {
        assert(crate::types::internal_params_view(r@) =~= crate::types::internal_params_view(
            params@,
        ));
    }
    r
}


/// The external answers `add_required_parameters` consults: the clock, the
/// attestation-id provider, the policy engine and the id-rotation probe.
#[derive(Debug)]
pub struct RequiredParamsEnv {
    /// The clock reading used as the creation timestamp.
    pub now_ms: i64,
    /// The attestation application id of the caller, or the failure code of
    /// the provider.  Consulted only when an attestation challenge is
    /// present.
    pub aaid: Result<Vec<u8>, ResponseCode>,
    /// Whether the caller may generate unique ids (either of the two
    /// capabilities that allow it).
    pub gen_unique_id_permitted: bool,
    /// Whether the device was factory-reset since the last id rotation.
    /// Consulted only when a unique id is requested.
    pub had_factory_reset: Result<bool, Error>,
    /// Whether the caller may attest device identifiers.
    pub device_attestation_permitted: bool,
}

/// Whether any parameter attests a device identifier.
pub open spec fn spec_has_device_id_tag(params: Seq<ParamView>) -> bool {
    exists|i: int|
        0 <= i < params.len() && crate::types::spec_is_device_id_attestation_tag(params[i].tag)
}

/// Whether the first algorithm parameter names an asymmetric algorithm.
pub open spec fn spec_is_asymmetric(params: Seq<ParamView>) -> bool {
    match crate::types::spec_find_tag(params, Tag::Algorithm) {
        Some(p) => p.value == crate::types::ValueView::Algorithm(crate::types::Algorithm::Rsa)
            || p.value == crate::types::ValueView::Algorithm(crate::types::Algorithm::Ec),
        None => false,
    }
}

/// No mandatory-parameter check fails: the caller did not smuggle in a
/// creation timestamp, the attestation-id provider answered where needed,
/// unique-id generation and device-id attestation are permitted where
/// requested, and the id-rotation probe answered where consulted.
pub open spec fn spec_required_params_ok(params: Seq<ParamView>, env: RequiredParamsEnv) -> bool {
    &&& !spec_has_tag(params, Tag::CreationDatetime)
    &&& (spec_has_tag(params, Tag::AttestationChallenge) ==> env.aaid is Ok)
    &&& (spec_has_tag(params, Tag::IncludeUniqueId) ==> env.gen_unique_id_permitted
        && env.had_factory_reset is Ok)
    &&& (spec_has_device_id_tag(params) ==> env.device_attestation_permitted)
}

/// The augmented parameter list: the caller's parameters followed by the
/// creation timestamp (on engines that take one), the attestation
/// application id (when a challenge asks for attestation), the
/// reset-since-rotation marker (when a unique id is requested and a factory
/// reset happened), and default validity bounds for asymmetric keys.
pub open spec fn spec_required_params(
    params: Seq<ParamView>,
    hw_version: i32,
    now_ms: i64,
    aaid: Seq<u8>,
    reset: bool,
) -> Seq<ParamView> {
    let with_time = if hw_version >= crate::device::ENGINE_VERSION_1 {
        params.push(
            (ParamView {
                tag: Tag::CreationDatetime,
                value: crate::types::ValueView::DateTime(now_ms),
            }),
        )
    } else {
        params
    };
    let with_aaid = if spec_has_tag(params, Tag::AttestationChallenge) {
        with_time.push(
            (ParamView {
                tag: Tag::AttestationApplicationId,
                value: crate::types::ValueView::Blob(aaid),
            }),
        )
    } else {
        with_time
    };
    let with_reset = if spec_has_tag(params, Tag::IncludeUniqueId) && reset {
        with_aaid.push(
            (ParamView {
                tag: Tag::ResetSinceIdRotation,
                value: crate::types::ValueView::BoolValue(true),
            }),
        )
    } else {
        with_aaid
    };
    let with_not_before = if spec_is_asymmetric(params) && !spec_has_tag(
        params,
        Tag::CertificateNotBefore,
    ) {
        with_reset.push(
            (ParamView {
                tag: Tag::CertificateNotBefore,
                value: crate::types::ValueView::DateTime(0),
            }),
        )
    } else {
        with_reset
    };
    if spec_is_asymmetric(params) && !spec_has_tag(params, Tag::CertificateNotAfter) {
        with_not_before.push(
            (ParamView {
                tag: Tag::CertificateNotAfter,
                value: crate::types::ValueView::DateTime(UNDEFINED_NOT_AFTER),
            }),
        )
    } else {
        with_not_before
    }
}


/// Decides whether any parameter attests a device identifier.
pub fn has_device_id_tag(params: &Vec<KeyParameter>) -> (r: bool)
    ensures
        r == spec_has_device_id_tag(crate::types::params_view(params@)),
{
    let ghost pv = crate::types::params_view(params@);
    let mut i: usize = 0;
    while i < params.len()
        invariant
            i <= params@.len(),
            pv == crate::types::params_view(params@),
            forall|k: int|
                0 <= k < i ==> !crate::types::spec_is_device_id_attestation_tag(pv[k].tag),
        decreases params@.len() - i,
    {
        if crate::types::is_device_id_attestation_tag(params[i].tag) {
            assert(crate::types::spec_is_device_id_attestation_tag(pv[i as int].tag));
            return true;
        }
        i += 1;
    }
    false
}

/// The lifecycle service of one security tier: the resolved engine handle,
/// the admission table for its operation slots, and the engine identity
/// every stored blob of this tier is checked against.
#[derive(Debug)]
pub struct KeystoreSecurityLevel {
    security_level: SecurityLevel,
    hw_info: HardwareInfo,
    km_uuid: Uuid,
    operation_db: AdmissionTable,
}

impl KeystoreSecurityLevel {
    /// The tier this service serves.
    pub closed spec fn spec_security_level(&self) -> SecurityLevel {
        self.security_level
    }

    /// The resolved engine's hardware info, version normalised.
    pub closed spec fn spec_hw_info(&self) -> HardwareInfo {
        self.hw_info
    }

    /// The identifier of the engine serving this tier.
    pub closed spec fn spec_km_uuid(&self) -> Uuid {
        self.km_uuid
    }

    /// The admission table's live operations.
    pub closed spec fn spec_ops(&self) -> Seq<crate::admission::OperationRecord> {
        self.operation_db.spec_ops()
    }

    /// The admission table is within the engine's capacity and sized by it.
    pub closed spec fn wf(&self) -> bool {
        &&& self.operation_db.wf()
        &&& self.operation_db.spec_capacity() == self.spec_hw_info().operation_slots
    }

    /// Creates the service for a tier by resolving its engine connection.
    pub fn new_native_binder(
        security_level: SecurityLevel,
        devices: &mut DevicesMap,
        dir: &ServiceDirectory,
    ) -> (r: Result<(KeystoreSecurityLevel, Uuid), Error>)
        requires
            old(devices).wf(),
        ensures
            final(devices).wf(),
            match spec_resolve(old(devices).spec_entries(), dir@, security_level) {
                Ok((h, u)) => r matches Ok((s, su)) && su == u && s.spec_km_uuid() == u
                    && s.spec_hw_info() == h.hw_info && s.spec_security_level() == security_level
                    && s.wf() && s.spec_ops() == Seq::<crate::admission::OperationRecord>::empty(),
                Err(e) => r == Err::<(KeystoreSecurityLevel, Uuid), Error>(e),
            },
    {
        match get_keymint_device(devices, dir, security_level) {
            Ok((handle, uuid)) => {
                let service = KeystoreSecurityLevel {
                    security_level,
                    hw_info: handle.hw_info,
                    km_uuid: uuid,
                    operation_db: AdmissionTable::new(handle.hw_info.operation_slots),
                };
                Ok((service, uuid))
            },
            Err(e) => Err(e),
        }
    }

    /// Deletes a caller-managed raw blob: only `Domain::Blob` keys can be
    /// deleted here, the caller needs the delete capability, and the
    /// engine's verdict is passed through.
    pub fn delete_key(
        &self,
        key: &KeyDescriptor,
        delete_granted: bool,
        engine: Result<(), ErrorCode>,
    ) -> (r: Result<(), Error>)
        ensures
            key@.domain != Domain::Blob ==> r == Err::<(), Error>(
                Error::Km(ErrorCode::InvalidArgument),
            ),
            key@.domain == Domain::Blob && key@.blob is None ==> r == Err::<(), Error>(
                Error::Km(ErrorCode::InvalidArgument),
            ),
            key@.domain == Domain::Blob && key@.blob is Some && !delete_granted ==> r == Err::<
                (),
                Error,
            >(Error::Rc(ResponseCode::PermissionDenied)),
            key@.domain == Domain::Blob && key@.blob is Some && delete_granted ==> match engine {
                Ok(()) => r == Ok::<(), Error>(()),
                Err(e) => r == Err::<(), Error>(Error::Km(e)),
            },
            r is Ok ==> key@.domain == Domain::Blob && key@.blob is Some && delete_granted
                && engine is Ok,
    {
        if key.domain != Domain::Blob {
            return Err(Error::Km(ErrorCode::InvalidArgument));
        }
        if key.blob.is_none() {
            return Err(Error::Km(ErrorCode::InvalidArgument));
        }
        if !delete_granted {
            return Err(Error::perm());
        }
        match engine {
            Ok(()) => Ok(()),
            Err(e) => Err(Error::Km(e)),
        }
    }

    /// Converts a caller-managed storage key into an ephemeral key.  This
    /// primitive is not wrapped by the generic upgrade protocol: when the
    /// engine demands an upgrade, the blob is upgraded explicitly and the
    /// conversion retried exactly once, and the upgraded blob is returned
    /// so the caller can replace its copy.
    pub fn convert_storage_key_to_ephemeral(
        &self,
        storage_key: &KeyDescriptor,
        convert_granted: bool,
        first: Result<Vec<u8>, ErrorCode>,
        upgrade: Result<Vec<u8>, ErrorCode>,
        second: Result<Vec<u8>, ErrorCode>,
    ) -> (r: Result<EphemeralStorageKeyResponse, Error>)
        ensures
            storage_key@.domain != Domain::Blob ==> r == Err::<EphemeralStorageKeyResponse, Error>(
                Error::Km(ErrorCode::InvalidArgument),
            ),
            storage_key@.domain == Domain::Blob && storage_key@.blob is None ==> r == Err::<
                EphemeralStorageKeyResponse,
                Error,
            >(Error::Km(ErrorCode::InvalidArgument)),
            r is Ok ==> storage_key@.domain == Domain::Blob && storage_key@.blob is Some
                && convert_granted,
            storage_key@.domain == Domain::Blob && storage_key@.blob is Some && !convert_granted
                ==> r == Err::<EphemeralStorageKeyResponse, Error>(
                Error::Rc(ResponseCode::PermissionDenied),
            ),
            storage_key@.domain == Domain::Blob && storage_key@.blob is Some && convert_granted
                ==> match first {
                Ok(ek) => r matches Ok(resp) && resp.ephemeral_key@ == ek@ && resp.upgraded_blob
                    is None,
                Err(ErrorCode::KeyRequiresUpgrade) => match upgrade {
                    Err(e) => r == Err::<EphemeralStorageKeyResponse, Error>(Error::Km(e)),
                    Ok(nb) => match second {
                        Ok(ek) => r matches Ok(resp) && resp.ephemeral_key@ == ek@ && (resp
                            .upgraded_blob matches Some(b) && b@ == nb@),
                        Err(e) => r == Err::<EphemeralStorageKeyResponse, Error>(Error::Km(e)),
                    },
                },
                Err(e) => r == Err::<EphemeralStorageKeyResponse, Error>(Error::Km(e)),
            },
    {
        if storage_key.domain != Domain::Blob {
            return Err(Error::Km(ErrorCode::InvalidArgument));
        }
        if storage_key.blob.is_none() {
            return Err(Error::Km(ErrorCode::InvalidArgument));
        }
        if !convert_granted {
            return Err(Error::perm());
        }
        match first {
            Ok(ephemeral_key) => Ok(
                EphemeralStorageKeyResponse { ephemeral_key, upgraded_blob: None },
            ),
            Err(ErrorCode::KeyRequiresUpgrade) => {
                match upgrade {
                    Err(e) => Err(Error::Km(e)),
                    Ok(upgraded_blob) => {
                        match second {
                            Ok(ephemeral_key) => Ok(
                                EphemeralStorageKeyResponse {
                                    ephemeral_key,
                                    upgraded_blob: Some(upgraded_blob),
                                },
                            ),
                            Err(e) => Err(Error::Km(e)),
                        }
                    },
                }
            },
            Err(e) => Err(Error::Km(e)),
        }
    }


    /// The parameter list persisted with a new key: the engine-reported
    /// characteristics flattened, plus the owning user recorded as a
    /// software-enforced parameter.
    pub open spec fn spec_store_params(
        chars: Seq<crate::types::CharacteristicsView>,
        user_id: i32,
    ) -> Seq<crate::types::InternalParamView> {
        crate::types::spec_characteristics_to_internal(chars).push(
            (crate::types::InternalParamView {
                param: ParamView {
                    tag: Tag::UserId,
                    value: crate::types::ValueView::Integer(user_id),
                },
                security_level: SecurityLevel::Software,
            }),
        )
    }


    /// Everything a successful filing must report, tied to the engine's
    /// creation result: the tier, the creation time, the flattened
    /// parameters with the owning user, the unified certificates of
    /// `chain`, and — for stored keys — the record under the store's row
    /// id, wrapped as requested.
    pub open spec fn spec_filed_key_ok<'a>(
        self,
        key: crate::types::KeyDescriptorView,
        cr_blob: Seq<u8>,
        chars: Seq<crate::types::CharacteristicsView>,
        chain: Seq<Certificate>,
        user_id: i32,
        creation_date_ms: i64,
        store_key_id: Result<i64, Error>,
        wrapping: StorageWrapping<'a>,
        md: KeyMetadata,
        rec: Option<NewKeyRecord>,
    ) -> bool {
        &&& md.key_security_level == self.spec_security_level()
        &&& md.modification_time_ms == creation_date_ms
        &&& crate::types::internal_params_view(md.authorizations@) == Self::spec_store_params(
            chars,
            user_id,
        )
        &&& (chain.len() == 0 ==> md.certificate is None && md.certificate_chain is None)
        &&& (chain.len() >= 1 ==> (md.certificate matches Some(leaf) && leaf@ == chain[0]@))
        &&& (chain.len() == 1 ==> md.certificate_chain is None)
        &&& (chain.len() > 1 ==> (md.certificate_chain matches Some(rest) && rest@
            == spec_concat_certs(chain.drop_first())))
        &&& (key.domain == Domain::Blob ==> rec is None && md.key@.domain == Domain::Blob
            && md.key@.blob == Some(cr_blob) && md.key@.alias is None)
        &&& (key.domain != Domain::Blob ==> {
            &&& store_key_id matches Ok(id) && md.key@.domain == Domain::KeyId && md.key@.nspace
                == id
            &&& rec matches Some(record) && {
                &&& record@.descriptor == key
                &&& record@.key_type == KeyType::Client
                &&& record@.creation_date_ms == creation_date_ms
                &&& record@.km_uuid == self.spec_km_uuid()
                &&& record@.blob_metadata.km_uuid == Some(self.spec_km_uuid())
                &&& record@.blob_metadata.wf()
                &&& match wrapping {
                    StorageWrapping::Plain => record@.blob == cr_blob
                        && record@.blob_metadata.wrapping is Plain,
                    StorageWrapping::SuperEncrypt(sk) => record@.blob_metadata.wrapping matches
                        crate::super_key::BlobWrappingView::SuperEncrypted { generation, iv, tag }
                        && generation == sk.spec_generation() && crate::crypto::spec_gcm_open(
                        sk.spec_key(),
                        iv,
                        record@.blob,
                        tag,
                    ) == Some(cr_blob),
                }
            }
        })
    }


    /// What a generate request is owed once the engine created the key: a
    /// raw blob always succeeds, with plain wrapping only the store can
    /// refuse, and a success is filed per `spec_filed_key_ok` under the
    /// effective identity.
    pub open spec fn spec_generated_key_filed<'a>(
        self,
        key: crate::types::KeyDescriptorView,
        caller_uid: u32,
        cr_blob: Seq<u8>,
        chars: Seq<crate::types::CharacteristicsView>,
        chain: Seq<Certificate>,
        creation_date_ms: i64,
        store_key_id: Result<i64, Error>,
        wrapping: StorageWrapping<'a>,
        r: Result<(KeyMetadata, Option<NewKeyRecord>, Option<BlobPersistRequest>, Option<AttestationRequest>), Error>,
    ) -> bool {
        &&& (key.domain == Domain::Blob ==> r is Ok)
        &&& (wrapping is Plain && key.domain != Domain::Blob ==> match store_key_id {
            Ok(_) => r is Ok,
            Err(e) => r == Err::<
                (KeyMetadata, Option<NewKeyRecord>, Option<BlobPersistRequest>, Option<AttestationRequest>),
                Error,
            >(e),
        })
        &&& (r is Err ==> (store_key_id is Err || r == Err::<
            (KeyMetadata, Option<NewKeyRecord>, Option<BlobPersistRequest>, Option<AttestationRequest>),
            Error,
        >(Error::Rc(ResponseCode::SystemError))))
        &&& (r matches Ok((md, rec, _, _)) ==> self.spec_filed_key_ok(
            spec_effective_identity(key, caller_uid),
            cr_blob,
            chars,
            chain,
            spec_user_id(caller_uid),
            creation_date_ms,
            store_key_id,
            wrapping,
            md,
            rec,
        ))
    }


    /// What a wrapped import is owed once the engine created the key: with
    /// plain wrapping only the store can refuse, any failure is the store's
    /// or a failed wrap, and a success is filed per `spec_filed_key_ok`
    /// under the wrapped-import identity.
    pub open spec fn spec_wrapped_key_filed<'a>(
        self,
        key: crate::types::KeyDescriptorView,
        caller_uid: u32,
        cr_blob: Seq<u8>,
        chars: Seq<crate::types::CharacteristicsView>,
        chain: Seq<Certificate>,
        creation_date_ms: i64,
        store_key_id: Result<i64, Error>,
        wrapping: StorageWrapping<'a>,
        r: Result<
            (KeyMetadata, Option<NewKeyRecord>, Option<BlobPersistRequest>, ImportWrappedRequest),
            Error,
        >,
    ) -> bool {
        &&& (wrapping is Plain ==> match store_key_id {
            Ok(_) => r is Ok,
            Err(e) => r == Err::<
                (
                    KeyMetadata,
                    Option<NewKeyRecord>,
                    Option<BlobPersistRequest>,
                    ImportWrappedRequest,
                ),
                Error,
            >(e),
        })
        &&& (r is Err ==> (store_key_id is Err || r == Err::<
            (KeyMetadata, Option<NewKeyRecord>, Option<BlobPersistRequest>, ImportWrappedRequest),
            Error,
        >(Error::Rc(ResponseCode::SystemError))))
        &&& (r matches Ok((md, rec, _, _)) ==> self.spec_filed_key_ok(
            spec_wrapped_identity(key, caller_uid),
            cr_blob,
            chars,
            chain,
            spec_user_id(caller_uid),
            creation_date_ms,
            store_key_id,
            wrapping,
            md,
            rec,
        ))
    }

    /// Files a freshly created key.  A caller-managed raw blob is returned
    /// inside its descriptor and nothing is stored; any other key is
    /// wrapped as requested, described by a record for the store, and
    /// addressed by the row id the store assigned.  The returned metadata
    /// carries the unified certificate chain and the enforced parameters.
    pub fn store_new_key(
        &self,
        key: KeyDescriptor,
        creation_result: KeyCreationResult,
        user_id: i32,
        wrapping: StorageWrapping<'_>,
        creation_date_ms: i64,
        store_key_id: Result<i64, Error>,
    ) -> (r: Result<(KeyMetadata, Option<NewKeyRecord>), Error>)
        requires
            wrapping matches StorageWrapping::SuperEncrypt(sk) ==> sk.wf(),
        ensures
            // Every success reports the same tier, creation time, unified
            // certificates and parameter list.
            r matches Ok((md, _)) ==> {
                &&& md.key_security_level == self.spec_security_level()
                &&& md.modification_time_ms == creation_date_ms
                &&& crate::types::internal_params_view(md.authorizations@)
                    == Self::spec_store_params(
                    crate::types::characteristics_view(creation_result.key_characteristics@),
                    user_id,
                )
                &&& creation_result.certificate_chain@.len() == 0 ==> md.certificate is None
                    && md.certificate_chain is None
                &&& creation_result.certificate_chain@.len() >= 1 ==> (md.certificate matches Some(
                    leaf,
                ) && leaf@ == creation_result.certificate_chain@[0]@)
                &&& creation_result.certificate_chain@.len() > 1 ==> (md.certificate_chain
                    matches Some(rest) && rest@ == spec_concat_certs(
                    creation_result.certificate_chain@.drop_first(),
                ))
            },
            // A raw blob goes back to the caller inside its descriptor;
            // nothing reaches the store.
            key@.domain == Domain::Blob ==> (r matches Ok((md, rec)) && {
                &&& rec is None
                &&& md.key@.domain == Domain::Blob
                &&& md.key@.blob == Some(creation_result.key_blob@)
                &&& md.key@.alias is None
            }),
            // Any other key is filed with the store and addressed by id.
            key@.domain != Domain::Blob ==> (store_key_id matches Err(e) ==> (r == Err::<
                (KeyMetadata, Option<NewKeyRecord>),
                Error,
            >(e) || r == Err::<(KeyMetadata, Option<NewKeyRecord>), Error>(
                Error::Rc(ResponseCode::SystemError),
            ))),
            // With plain wrapping nothing outside can fail but the store:
            // a granted row id forces success.
            key@.domain != Domain::Blob && wrapping is Plain ==> match store_key_id {
                Ok(_) => r is Ok,
                Err(e) => r == Err::<(KeyMetadata, Option<NewKeyRecord>), Error>(e),
            },
            // The only failures are the store's error and a failed wrap.
            key@.domain != Domain::Blob ==> (r is Err ==> (store_key_id is Err || r == Err::<
                (KeyMetadata, Option<NewKeyRecord>),
                Error,
            >(Error::Rc(ResponseCode::SystemError)))),
            // A raw blob is always filed back to the caller.
            key@.domain == Domain::Blob ==> r is Ok,
            // The bundled filing relation, forwarded by the entry points.
            r matches Ok((md, rec)) ==> self.spec_filed_key_ok(
                key@,
                creation_result.key_blob@,
                crate::types::characteristics_view(creation_result.key_characteristics@),
                creation_result.certificate_chain@,
                user_id,
                creation_date_ms,
                store_key_id,
                wrapping,
                md,
                rec,
            ),
            key@.domain != Domain::Blob ==> (r matches Ok((md, rec)) ==> {
                &&& store_key_id matches Ok(id) && md.key@.domain == Domain::KeyId
                    && md.key@.nspace == id
                &&& rec matches Some(record) && {
                    &&& record@.descriptor == key@
                    &&& record@.key_type == KeyType::Client
                    &&& record@.creation_date_ms == creation_date_ms
                    &&& record@.km_uuid == self.spec_km_uuid()
                    &&& record@.blob_metadata.km_uuid == Some(self.spec_km_uuid())
                    &&& record@.blob_metadata.wf()
                    &&& (wrapping is Plain ==> record@.blob == creation_result.key_blob@
                        && record@.blob_metadata.wrapping is Plain)
                    &&& (wrapping matches StorageWrapping::SuperEncrypt(sk)
                        ==> record@.blob_metadata.wrapping matches
                        crate::super_key::BlobWrappingView::SuperEncrypted { generation, iv, tag }
                        && generation == sk.spec_generation() && crate::crypto::spec_gcm_open(
                        sk.spec_key(),
                        iv,
                        record@.blob,
                        tag,
                    ) == Some(creation_result.key_blob@))
                }
            }),
    {
        let KeyCreationResult { key_blob, key_characteristics, certificate_chain } =
            creation_result;
        let (certificate, chain) = unify_certificate_chain(certificate_chain);
        let mut key_parameters = crate::types::key_characteristics_to_internal(
            key_characteristics,
        );
        let ghost pre_push = key_parameters@;
        key_parameters.push(
            InternalParam {
                param: KeyParameter { tag: Tag::UserId, value: KeyParameterValue::Integer(user_id) },
                security_level: SecurityLevel::Software,
            },
        );
        proof {
            assert(crate::types::internal_params_view(key_parameters@)
                =~= crate::types::internal_params_view(pre_push).push(
                key_parameters@.last()@,
            ));
        }
        if key.domain == Domain::Blob {
            let md = KeyMetadata {
                key: KeyDescriptor {
                    domain: Domain::Blob,
                    nspace: 0,
                    alias: None,
                    blob: Some(key_blob),
                },
                key_security_level: self.security_level,
                certificate,
                certificate_chain: chain,
                authorizations: key_parameters,
                modification_time_ms: creation_date_ms,
            };
            return Ok((md, None));
        }
        let (stored_blob, mut blob_metadata) = match wrapping {
            StorageWrapping::Plain => (key_blob, BlobMetaData::new()),
            StorageWrapping::SuperEncrypt(sk) => {
                match sk.wrap_key_for_storage(key_blob.as_slice()) {
                    Ok((wrapped, meta)) => (wrapped, meta),
                    Err(_) => {
                        return Err(Error::sys());
                    },
                }
            },
        };
        blob_metadata.add_km_uuid(self.km_uuid);
        let key_id = match store_key_id {
            Ok(id) => id,
            Err(e) => {
                return Err(e);
            },
        };
        let record = NewKeyRecord {
            descriptor: key,
            key_type: KeyType::Client,
            parameters: clone_internal_params(&key_parameters),
            blob: stored_blob,
            blob_metadata,
            cert: None,
            cert_chain: None,
            creation_date_ms,
            km_uuid: self.km_uuid,
        };
        let md = KeyMetadata {
            key: KeyDescriptor { domain: Domain::KeyId, nspace: key_id, alias: None, blob: None },
            key_security_level: self.security_level,
            certificate,
            certificate_chain: chain,
            authorizations: key_parameters,
            modification_time_ms: creation_date_ms,
        };
        Ok((md, Some(record)))
    }


    /// Augments caller-supplied parameters with the mandatory ones,
    /// enforcing the permissions they demand: a caller-supplied creation
    /// timestamp is rejected; an attestation challenge pulls in the
    /// caller's attestation application id; a unique-id request needs the
    /// matching capability and records a factory reset since the last id
    /// rotation; device-identifier attestation needs its own capability;
    /// and asymmetric keys get default validity bounds.
    pub fn add_required_parameters(
        &self,
        params: &Vec<KeyParameter>,
        env: RequiredParamsEnv,
    ) -> (r: Result<Vec<KeyParameter>, Error>)
        ensures
            ({
                let pv = crate::types::params_view(params@);
                &&& (spec_has_tag(pv, Tag::CreationDatetime) ==> r == Err::<
                    Vec<KeyParameter>,
                    Error,
                >(Error::Rc(ResponseCode::InvalidArgument)))
                &&& (!spec_has_tag(pv, Tag::CreationDatetime) && spec_has_tag(
                    pv,
                    Tag::AttestationChallenge,
                ) ==> (env.aaid matches Err(rc) ==> r == Err::<Vec<KeyParameter>, Error>(
                    Error::Rc(rc),
                )))
                &&& (!spec_has_tag(pv, Tag::CreationDatetime) && (spec_has_tag(
                    pv,
                    Tag::AttestationChallenge,
                ) ==> env.aaid is Ok) && spec_has_tag(pv, Tag::IncludeUniqueId)
                    && !env.gen_unique_id_permitted ==> r == Err::<Vec<KeyParameter>, Error>(
                    Error::Rc(ResponseCode::PermissionDenied),
                ))
                &&& (!spec_has_tag(pv, Tag::CreationDatetime) && (spec_has_tag(
                    pv,
                    Tag::AttestationChallenge,
                ) ==> env.aaid is Ok) && spec_has_tag(pv, Tag::IncludeUniqueId)
                    && env.gen_unique_id_permitted ==> (env.had_factory_reset matches Err(e) ==> r
                    == Err::<Vec<KeyParameter>, Error>(e)))
                &&& (!spec_has_tag(pv, Tag::CreationDatetime) && (spec_has_tag(
                    pv,
                    Tag::AttestationChallenge,
                ) ==> env.aaid is Ok) && (spec_has_tag(pv, Tag::IncludeUniqueId)
                    ==> env.gen_unique_id_permitted && env.had_factory_reset is Ok)
                    && spec_has_device_id_tag(pv) && !env.device_attestation_permitted ==> r
                    == Err::<Vec<KeyParameter>, Error>(Error::Rc(ResponseCode::PermissionDenied)))
                &&& (r is Ok <==> spec_required_params_ok(pv, env))
                &&& (r matches Ok(v) ==> crate::types::params_view(v@) == spec_required_params(
                    pv,
                    self.spec_hw_info().version_number,
                    env.now_ms,
                    match env.aaid {
                        Ok(a) => a@,
                        Err(_) => Seq::empty(),
                    },
                    env.had_factory_reset == Ok::<bool, Error>(true),
                ))
            }),
    {
        let ghost pv = crate::types::params_view(params@);
        if has_tag(params, Tag::CreationDatetime) {
            return Err(Error::Rc(ResponseCode::InvalidArgument));
        }
        let mut result = clone_params(params);
        let ghost base = crate::types::params_view(result@);
        if self.hw_info.version_number >= crate::device::ENGINE_VERSION_1 {
            let ghost prev = result@;
            result.push(
                KeyParameter {
                    tag: Tag::CreationDatetime,
                    value: KeyParameterValue::DateTime(env.now_ms),
                },
            );
            proof {
                assert(crate::types::params_view(result@) =~= crate::types::params_view(
                    prev,
                ).push(result@.last()@));
            }
        }
        if has_tag(params, Tag::AttestationChallenge) {
            match env.aaid {
                Ok(aaid) => {
                    let ghost prev = result@;
                    result.push(
                        KeyParameter {
                            tag: Tag::AttestationApplicationId,
                            value: KeyParameterValue::Blob(aaid),
                        },
                    );
                    proof {
                        assert(crate::types::params_view(result@) =~= crate::types::params_view(
                            prev,
                        ).push(result@.last()@));
                    }
                },
                Err(rc) => {
                    return Err(Error::Rc(rc));
                },
            }
        }
        let reset = if has_tag(params, Tag::IncludeUniqueId) {
            if !env.gen_unique_id_permitted {
                return Err(Error::perm());
            }
            match env.had_factory_reset {
                Ok(reset) => reset,
                Err(e) => {
                    return Err(e);
                },
            }
        } else {
            false
        };
        if reset {
            let ghost prev = result@;
            result.push(
                KeyParameter {
                    tag: Tag::ResetSinceIdRotation,
                    value: KeyParameterValue::BoolValue(true),
                },
            );
            proof {
                assert(crate::types::params_view(result@) =~= crate::types::params_view(
                    prev,
                ).push(result@.last()@));
            }
        }
        if has_device_id_tag(params) && !env.device_attestation_permitted {
            return Err(Error::perm());
        }
        let asymmetric = match crate::types::find_tag_index(params, Tag::Algorithm) {
            Some(i) => {
                match &params[i].value {
                    KeyParameterValue::Algorithm(crate::types::Algorithm::Rsa) => true,
                    KeyParameterValue::Algorithm(crate::types::Algorithm::Ec) => true,
                    _ => false,
                }
            },
            None => {
                proof {
                    crate::types::lemma_find_tag_sound(pv, Tag::Algorithm);
                }
                false
            },
        };
        if asymmetric {
            if !has_tag(params, Tag::CertificateNotBefore) {
                let ghost prev = result@;
                result.push(
                    KeyParameter {
                        tag: Tag::CertificateNotBefore,
                        value: KeyParameterValue::DateTime(0),
                    },
                );
                proof {
                    assert(crate::types::params_view(result@) =~= crate::types::params_view(
                        prev,
                    ).push(result@.last()@));
                }
            }
            if !has_tag(params, Tag::CertificateNotAfter) {
                let ghost prev = result@;
                result.push(
                    KeyParameter {
                        tag: Tag::CertificateNotAfter,
                        value: KeyParameterValue::DateTime(UNDEFINED_NOT_AFTER),
                    },
                );
                proof {
                    assert(crate::types::params_view(result@) =~= crate::types::params_view(
                        prev,
                    ).push(result@.last()@));
                }
            }
        }
        Ok(result)
    }


    /// Runs an engine call under the upgrade protocol and keeps the store
    /// honest: an upgraded blob, and also an unchanged blob that is marked
    /// for forced re-wrap, comes back as a blob-replacement record for the
    /// key's row — upgraded blobs are persisted on every code path.  Keys
    /// without a store row (caller-managed raw blobs) have nothing to
    /// persist.
    pub fn upgrade_keyblob_if_required_with<T>(
        &self,
        key_id: Option<i64>,
        super_key: &Option<SuperKey>,
        key_blob: &KeyBlob<'_>,
        events: EngineUpgradeEvents<T>,
        reencrypt_store: Result<(), Error>,
    ) -> (r: Result<UpgradeOutcome<T>, Error>)
        requires
            super_key matches Some(sk) ==> sk.wf(),
        ensures
            ({
                let m = spec_run_upgrade_protocol(
                    spec_op_outcome(events.first),
                    events.upgrade,
                    events.persist,
                    spec_op_outcome(events.second),
                );
                &&& (m.state matches UpgradeState::Aborted { error } ==> r == Err::<
                    UpgradeOutcome<T>,
                    Error,
                >(error))
                &&& (m.state matches UpgradeState::Done { upgraded, persisted } ==> (r matches Ok(
                    out,
                ) ==> out.upgraded_blob == upgraded && (upgraded is Some ==> out.persisted
                    == persisted)))
            }),
            // No upgrade and no forced re-wrap: nothing is owed.
            events.first matches Ok(t) ==> (!key_blob.spec_force_reencrypt() ==> (r matches Ok(out)
                && out.payload == t && out.upgraded_blob is None && out.persist is None)),
            // A forced re-wrap without upgrade produces a replacement
            // record for a stored key.
            events.first matches Ok(t) ==> (key_blob.spec_force_reencrypt() ==> (key_id
                matches Some(kid) ==> (r matches Ok(out) ==> out.payload == t && out.upgraded_blob
                is None && (out.persist matches Some(req) && req.key_id == kid
                && req.blob_metadata@.km_uuid == Some(self.spec_km_uuid())) && out.persisted == (
            reencrypt_store is Ok)))),
            // An upgrade of a stored key produces a replacement record for
            // its row; for a blob that needs no re-wrap the record carries
            // the new bytes plain.
            events.upgrade matches Ok(nb) ==> (key_id matches Some(kid) ==> ((events.first
                == Err::<T, ErrorCode>(ErrorCode::KeyRequiresUpgrade) && events.second is Ok) ==> (
            r matches Ok(out) ==> (out.persist matches Some(req) && req.key_id == kid
                && req.blob_metadata@.km_uuid == Some(self.spec_km_uuid()) && (!(key_blob
                is Sensitive) ==> req.blob@ == nb@ && req.blob_metadata@.wrapping is Plain)) && (
            out.upgraded_blob matches Some(b) && b@ == nb@)))),
            // A key without a store row gets no replacement record, and a
            // completed protocol run forces success: nothing else decides.
            key_id is None ==> (r matches Ok(out) ==> out.persist is None),
            ({
                let m = spec_run_upgrade_protocol(
                    spec_op_outcome(events.first),
                    events.upgrade,
                    events.persist,
                    spec_op_outcome(events.second),
                );
                key_id is None ==> (m.state is Done ==> r is Ok)
            }),
            // Success is owed on the upgrade path of a blob that needs no
            // re-wrap for storage.
            events.upgrade matches Ok(nb) ==> (events.first == Err::<T, ErrorCode>(
                ErrorCode::KeyRequiresUpgrade,
            ) ==> (events.second matches Ok(t) ==> (!(key_blob is Sensitive) ==> (r matches Ok(out)
                && out.payload == t && (out.upgraded_blob matches Some(b) && b@ == nb@)
                && out.persisted == (events.persist is Ok))))),
            // For a sensitive blob the re-wrap's one outside decider is the
            // random source: the failure is named.
            ({
                let m = spec_run_upgrade_protocol(
                    spec_op_outcome(events.first),
                    events.upgrade,
                    events.persist,
                    spec_op_outcome(events.second),
                );
                (m.state is Done && key_blob is Sensitive && super_key is Some) ==> (r is Ok || r
                    == Err::<UpgradeOutcome<T>, Error>(Error::Rc(ResponseCode::SystemError)))
            }),
    {
        let (payload, upgraded, persisted) =
            match crate::raw_device::upgrade_keyblob_if_required_with(events) {
            Ok(v) => v,
            Err(e) => {
                return Err(e);
            },
        };
        match upgraded {
            Some(new_blob) => {
                let persist = match key_id {
                    Some(kid) => {
                        match Self::store_upgraded_keyblob(
                            kid,
                            Some(self.km_uuid),
                            super_key,
                            key_blob,
                            new_blob.as_slice(),
                        ) {
                            Ok(req) => Some(req),
                            Err(e) => {
                                return Err(e);
                            },
                        }
                    },
                    None => None,
                };
                Ok(UpgradeOutcome { payload, upgraded_blob: Some(new_blob), persist, persisted })
            },
            None => {
                if key_blob.force_reencrypt() {
                    match key_id {
                        Some(kid) => {
                            let req = match Self::store_upgraded_keyblob(
                                kid,
                                Some(self.km_uuid),
                                super_key,
                                key_blob,
                                key_blob.as_slice(),
                            ) {
                                Ok(req) => req,
                                Err(e) => {
                                    return Err(e);
                                },
                            };
                            Ok(
                                UpgradeOutcome {
                                    payload,
                                    upgraded_blob: None,
                                    persist: Some(req),
                                    persisted: reencrypt_store.is_ok(),
                                },
                            )
                        },
                        None => Ok(
                            UpgradeOutcome {
                                payload,
                                upgraded_blob: None,
                                persist: None,
                                persisted,
                            },
                        ),
                    }
                } else {
                    Ok(UpgradeOutcome { payload, upgraded_blob: None, persist: None, persisted })
                }
            },
        }
    }

    /// Runs an engine call on a remotely provisioned attestation key under
    /// the upgrade protocol.  The upgraded blob is stored back with the
    /// remote-provisioning collaborator (the protocol's persistence event),
    /// not with this service's store; the tier must have a provisioning
    /// component at all.
    pub fn upgrade_rkpd_keyblob_if_required_with<T>(
        &self,
        dir: &ServiceDirectory,
        events: EngineUpgradeEvents<T>,
    ) -> (r: Result<(T, Option<Vec<u8>>, bool), Error>)
        ensures
            !(self.spec_security_level() == SecurityLevel::TrustedEnvironment
                && dir.rpc_default_declared) && !(self.spec_security_level()
                == SecurityLevel::Strongbox && dir.rpc_strongbox_declared) ==> r == Err::<
                (T, Option<Vec<u8>>, bool),
                Error,
            >(Error::Km(ErrorCode::HardwareTypeUnavailable)),
            ({
                let m = spec_run_upgrade_protocol(
                    spec_op_outcome(events.first),
                    events.upgrade,
                    events.persist,
                    spec_op_outcome(events.second),
                );
                ((self.spec_security_level() == SecurityLevel::TrustedEnvironment
                    && dir.rpc_default_declared) || (self.spec_security_level()
                    == SecurityLevel::Strongbox && dir.rpc_strongbox_declared)) ==> {
                    &&& (m.state matches UpgradeState::Aborted { error } ==> r == Err::<
                        (T, Option<Vec<u8>>, bool),
                        Error,
                    >(error))
                    &&& (m.state matches UpgradeState::Done { upgraded, persisted } ==> (r
                        matches Ok((_, u, p)) && u == upgraded && p == persisted))
                    &&& (events.first matches Ok(t) ==> r == Ok::<(T, Option<Vec<u8>>, bool), Error>(
                        (t, None, true),
                    ))
                }
            }),
    {
        match crate::device::get_remotely_provisioned_component_name(self.security_level, dir) {
            Err(e) => {
                return Err(e);
            },
            Ok(component) => {
                proof {
                    match component {
                        crate::device::RpcComponent::Default => {
                            assert(self.security_level == SecurityLevel::TrustedEnvironment
                                && dir.rpc_default_declared);
                        },
                        crate::device::RpcComponent::Strongbox => {
                            assert(self.security_level == SecurityLevel::Strongbox
                                && dir.rpc_strongbox_declared);
                        },
                    }
                }
            },
        }
        crate::raw_device::upgrade_keyblob_if_required_with(events)
    }

    /// Generates a key: the identity must name an alias unless it is a raw
    /// blob, needs the rebind capability, is generated under the mandatory
    /// parameters, optionally attested by a user key (upgrade-wrapped, with
    /// its upgraded blob persisted) or a remotely provisioned key (whose
    /// certificate chain is post-processed or appended), and filed with the
    /// store.
    pub fn generate_key(
        &self,
        key: &KeyDescriptor,
        params: &Vec<KeyParameter>,
        env: GenerateKeyEnv<'_>,
    ) -> (r: Result<(KeyMetadata, Option<NewKeyRecord>, Option<BlobPersistRequest>, Option<AttestationRequest>), Error>)
        requires
            env.wrapping matches StorageWrapping::SuperEncrypt(sk) ==> sk.wf(),
        ensures
            key@.domain != Domain::Blob && key@.alias is None ==> r == Err::<
                (KeyMetadata, Option<NewKeyRecord>, Option<BlobPersistRequest>, Option<AttestationRequest>),
                Error,
            >(Error::Km(ErrorCode::InvalidArgument)),
            (key@.domain == Domain::Blob || key@.alias is Some) && !env.rebind_granted ==> r
                == Err::<(KeyMetadata, Option<NewKeyRecord>, Option<BlobPersistRequest>, Option<AttestationRequest>), Error>(
                Error::Rc(ResponseCode::PermissionDenied),
            ),
            r is Ok ==> env.rebind_granted && (key@.domain == Domain::Blob || key@.alias is Some)
                && spec_required_params_ok(crate::types::params_view(params@), env.required),
            // The caller-facing metadata and the stored record describe the
            // effective identity: an app key is filed under the caller.
            r matches Ok((md, rec, _, _)) ==> {
                &&& md.key_security_level == self.spec_security_level()
                &&& (key@.domain != Domain::Blob ==> (rec matches Some(record) && {
                    &&& record@.descriptor.domain == key@.domain
                    &&& record@.descriptor.alias == key@.alias
                    &&& record@.descriptor.nspace == (if key@.domain == Domain::App {
                        env.caller_uid as i64
                    } else {
                        key@.nspace
                    })
                    &&& record@.blob_metadata.km_uuid == Some(self.spec_km_uuid())
                }))
                &&& (key@.domain == Domain::Blob ==> rec is None)
            },
            // An upgraded user-generated attestation key is owed back to
            // the store under its own row.
            env.attest_key_info matches Some(AttestationKeyInfo::UserGenerated { key_id, .. })
                ==> (r matches Ok((_, _, ap, _)) ==> (ap matches Some(req) ==> req.key_id
                == key_id)),
            env.attest_key_info is None ==> (r matches Ok((_, _, ap, _)) ==> ap is None),
            // On the plain path an engine failure propagates unchanged.
            (key@.domain == Domain::Blob || key@.alias is Some) && env.rebind_granted
                && spec_required_params_ok(crate::types::params_view(params@), env.required)
                && env.attest_key_info is None ==> (env.generate.first matches Err(e) ==> r
                == Err::<(KeyMetadata, Option<NewKeyRecord>, Option<BlobPersistRequest>, Option<AttestationRequest>), Error>(
                Error::Km(e),
            )),
            // A well-formed unattested request with a successful engine
            // reply is owed its result, tied to the creation result.
            spec_generate_request_ok(key@, crate::types::params_view(params@), &env)
                && env.attest_key_info is None ==> (env.generate.first matches Ok(cr)
                ==> self.spec_generated_key_filed(
                key@,
                env.caller_uid,
                cr.key_blob@,
                crate::types::characteristics_view(cr.key_characteristics@),
                cr.certificate_chain@,
                env.creation_date_ms,
                env.store_key_id,
                env.wrapping,
                r,
            )),
            // Under a current user-generated attestation key, the same; no
            // replacement record is owed.
            spec_generate_request_ok(key@, crate::types::params_view(params@), &env) ==> (env
                .attest_key_info matches Some(AttestationKeyInfo::UserGenerated { .. }) ==> (env
                .generate.first matches Ok(cr) ==> self.spec_generated_key_filed(
                key@,
                env.caller_uid,
                cr.key_blob@,
                crate::types::characteristics_view(cr.key_characteristics@),
                cr.certificate_chain@,
                env.creation_date_ms,
                env.store_key_id,
                env.wrapping,
                r,
            ) && (r matches Ok((_, _, ap, _)) ==> ap is None))),
            // An upgraded user-generated attestation key: the result is
            // still owed, tied to the retried reply, and the new
            // attestation blob is owed back under its own row.
            spec_generate_request_ok(key@, crate::types::params_view(params@), &env) ==> (env
                .attest_key_info matches Some(AttestationKeyInfo::UserGenerated { key_id, .. })
                ==> (env.generate.upgrade matches Ok(nb) ==> (env.generate.second matches Ok(cr)
                ==> (env.generate.first == Err::<KeyCreationResult, ErrorCode>(
                ErrorCode::KeyRequiresUpgrade,
            ) ==> self.spec_generated_key_filed(
                key@,
                env.caller_uid,
                cr.key_blob@,
                crate::types::characteristics_view(cr.key_characteristics@),
                cr.certificate_chain@,
                env.creation_date_ms,
                env.store_key_id,
                env.wrapping,
                r,
            ) && (r matches Ok((_, _, ap, _)) ==> (ap matches Some(req) && req.key_id == key_id
                && req.blob@ == nb@)))))),
            // A remotely provisioned attestation key: the result is owed
            // once the tier has a provisioning component, tied to the
            // creation result with the provisioned certificates appended
            // (or the post-processed chain substituted).
            spec_generate_request_ok(key@, crate::types::params_view(params@), &env) ==> (env
                .attest_key_info matches Some(AttestationKeyInfo::RkpdProvisioned {
                attestation_certs,
                ..
            }) ==> (env.generate.first matches Ok(cr) ==> (spec_rpc_declared(
                self.spec_security_level(),
                env.dir,
            ) ==> self.spec_generated_key_filed(
                key@,
                env.caller_uid,
                cr.key_blob@,
                crate::types::characteristics_view(cr.key_characteristics@),
                spec_rkpd_chain(
                    cr.certificate_chain@,
                    attestation_certs,
                    env.processed_certificate_chain,
                ),
                env.creation_date_ms,
                env.store_key_id,
                env.wrapping,
                r,
            ) && (r matches Ok((_, _, ap, _)) ==> ap is None)))),
    {
        if key.domain != Domain::Blob && key.alias.is_none() {
            return Err(Error::Km(ErrorCode::InvalidArgument));
        }
        let key = match key.domain {
            Domain::App => KeyDescriptor {
                domain: key.domain,
                nspace: env.caller_uid as i64,
                alias: match &key.alias {
                    Some(a) => Some(a.clone()),
                    None => None,
                },
                blob: None,
            },
            _ => key.clone(),
        };
        if !env.rebind_granted {
            return Err(Error::perm());
        }
        if let Err(e) = self.add_required_parameters(params, env.required) {
            return Err(e);
        }
        let (creation_result, attest_persist, attest_request) = match env.attest_key_info {
            None => {
                match env.generate.first {
                    Ok(cr) => (cr, None, None),
                    Err(e) => {
                        return Err(Error::Km(e));
                    },
                }
            },
            Some(AttestationKeyInfo::UserGenerated { key_id, blob, issuer_subject }) => {
                let attest_blob = KeyBlob::Ref(blob.as_slice());
                match self.upgrade_keyblob_if_required_with(
                    Some(key_id),
                    &None,
                    &attest_blob,
                    env.generate,
                    env.reencrypt_store,
                ) {
                    Ok(out) => {
                        let key_blob = match out.upgraded_blob {
                            Some(nb) => nb,
                            None => blob,
                        };
                        (
                            out.payload,
                            out.persist,
                            Some(AttestationRequest { key_blob, issuer_subject }),
                        )
                    },
                    Err(e) => {
                        return Err(e);
                    },
                }
            },
            Some(AttestationKeyInfo::RkpdProvisioned {
                attestation_key_blob,
                issuer_subject,
                attestation_certs,
            }) => {
                let (mut cr, upgraded, _persisted) =
                    match self.upgrade_rkpd_keyblob_if_required_with(env.dir, env.generate) {
                    Ok(v) => v,
                    Err(e) => {
                        return Err(e);
                    },
                };
                match env.processed_certificate_chain {
                    Some(chain) => {
                        cr.certificate_chain = chain;
                    },
                    None => {
                        cr.certificate_chain.push(
                            Certificate { encoded_certificate: attestation_certs },
                        );
                    },
                }
                let key_blob = match upgraded {
                    Some(nb) => nb,
                    None => attestation_key_blob,
                };
                (cr, None, Some(AttestationRequest { key_blob, issuer_subject }))
            },
        };
        let user_id = uid_to_android_user(env.caller_uid);
        match self.store_new_key(
            key,
            creation_result,
            #[verifier::truncate] (user_id as i32),
            env.wrapping,
            env.creation_date_ms,
            env.store_key_id,
        ) {
            Ok((md, rec)) => Ok((md, rec, attest_persist, attest_request)),
            Err(e) => Err(e),
        }
    }

    /// Imports caller-supplied key material: the identity must name an
    /// alias unless it is a raw blob, needs the rebind capability, gets the
    /// mandatory parameters, must carry a known algorithm (which fixes the
    /// wire format: raw for symmetric, a standard encoding for asymmetric),
    /// and the engine's result is filed with the store.
    pub fn import_key(
        &self,
        key: &KeyDescriptor,
        params: &Vec<KeyParameter>,
        env: ImportKeyEnv<'_>,
    ) -> (r: Result<(KeyMetadata, Option<NewKeyRecord>), Error>)
        requires
            env.wrapping matches StorageWrapping::SuperEncrypt(sk) ==> sk.wf(),
        ensures
            key@.domain != Domain::Blob && key@.alias is None ==> r == Err::<
                (KeyMetadata, Option<NewKeyRecord>),
                Error,
            >(Error::Km(ErrorCode::InvalidArgument)),
            (key@.domain == Domain::Blob || key@.alias is Some) && !env.rebind_granted ==> r
                == Err::<(KeyMetadata, Option<NewKeyRecord>), Error>(
                Error::Rc(ResponseCode::PermissionDenied),
            ),
            r is Ok ==> env.rebind_granted && (key@.domain == Domain::Blob || key@.alias is Some)
                && spec_required_params_ok(crate::types::params_view(params@), env.required)
                && spec_import_format(crate::types::params_view(params@)) is Ok && env.import
                is Ok,
            r matches Ok((md, rec)) ==> {
                &&& md.key_security_level == self.spec_security_level()
                &&& (key@.domain != Domain::Blob ==> (rec matches Some(record)
                    && record@.blob_metadata.km_uuid == Some(self.spec_km_uuid())
                    && record@.descriptor.nspace == (if key@.domain == Domain::App {
                    env.caller_uid as i64
                } else {
                    key@.nspace
                })))
            },
            // An engine failure propagates unchanged once the request is
            // well-formed.
            (key@.domain == Domain::Blob || key@.alias is Some) && env.rebind_granted
                && spec_required_params_ok(crate::types::params_view(params@), env.required)
                && spec_import_format(crate::types::params_view(params@)) is Ok ==> (env.import
                matches Err(e) ==> r == Err::<(KeyMetadata, Option<NewKeyRecord>), Error>(
                Error::Km(e),
            )),
            // A missing or unknown algorithm is a malformed request, never
            // handed to the engine.
            (key@.domain == Domain::Blob || key@.alias is Some) && env.rebind_granted
                && spec_required_params_ok(crate::types::params_view(params@), env.required) ==> (
            spec_import_format(crate::types::params_view(params@)) matches Err(e) ==> r == Err::<
                (KeyMetadata, Option<NewKeyRecord>),
                Error,
            >(e)),
            // A well-formed request with a successful engine reply is owed
            // its result: with plain wrapping only the store can refuse, and
            // the filing is tied to the creation result.
            (key@.domain == Domain::Blob || key@.alias is Some) && env.rebind_granted
                && spec_required_params_ok(crate::types::params_view(params@), env.required)
                && spec_import_format(crate::types::params_view(params@)) is Ok ==> (env.import
                matches Ok(cr) ==> {
                &&& (key@.domain == Domain::Blob ==> r is Ok)
                &&& (env.wrapping is Plain && key@.domain != Domain::Blob ==> match env
                    .store_key_id {
                    Ok(_) => r is Ok,
                    Err(e) => r == Err::<(KeyMetadata, Option<NewKeyRecord>), Error>(e),
                })
                &&& (r is Err ==> (env.store_key_id is Err || r == Err::<
                    (KeyMetadata, Option<NewKeyRecord>),
                    Error,
                >(Error::Rc(ResponseCode::SystemError))))
                &&& (r matches Ok((md, rec)) ==> self.spec_filed_key_ok(
                    spec_effective_identity(key@, env.caller_uid),
                    cr.key_blob@,
                    crate::types::characteristics_view(cr.key_characteristics@),
                    cr.certificate_chain@,
                    spec_user_id(env.caller_uid),
                    env.creation_date_ms,
                    env.store_key_id,
                    env.wrapping,
                    md,
                    rec,
                ))
            }),
    {
        if key.domain != Domain::Blob && key.alias.is_none() {
            return Err(Error::Km(ErrorCode::InvalidArgument));
        }
        let key = match key.domain {
            Domain::App => KeyDescriptor {
                domain: key.domain,
                nspace: env.caller_uid as i64,
                alias: match &key.alias {
                    Some(a) => Some(a.clone()),
                    None => None,
                },
                blob: None,
            },
            _ => key.clone(),
        };
        if !env.rebind_granted {
            return Err(Error::perm());
        }
        if let Err(e) = self.add_required_parameters(params, env.required) {
            return Err(e);
        }
        if let Err(e) = import_key_format(params) {
            return Err(e);
        }
        let creation_result = match env.import {
            Ok(cr) => cr,
            Err(e) => {
                return Err(Error::Km(e));
            },
        };
        let user_id = uid_to_android_user(env.caller_uid);
        self.store_new_key(
            key,
            creation_result,
            #[verifier::truncate] (user_id as i32),
            env.wrapping,
            env.creation_date_ms,
            env.store_key_id,
        )
    }


    /// Imports a key wrapped by another stored key.  The new key's identity
    /// must carry both an alias and the wrapped data and live in a caller
    /// or system domain; the wrapping key cannot be a caller-managed raw
    /// blob; the caller needs the rebind capability.  The wrapping key is
    /// loaded, unwrapped from super-encryption, upgraded transparently when
    /// the engine demands it (the upgraded blob owed back to the store),
    /// and the engine's result is filed with the store.  Missing
    /// authenticator bindings default to -1 and a missing masking key to
    /// all zeroes.
    pub fn import_wrapped_key(
        &self,
        key: &KeyDescriptor,
        wrapping_key: &KeyDescriptor,
        masking_key: Option<Vec<u8>>,
        authenticators: &Vec<crate::types::AuthenticatorSpec>,
        env: ImportWrappedKeyEnv<'_>,
    ) -> (r: Result<
        (KeyMetadata, Option<NewKeyRecord>, Option<BlobPersistRequest>, ImportWrappedRequest),
        Error,
    >)
        requires
            env.wrapping matches StorageWrapping::SuperEncrypt(sk) ==> sk.wf(),
            env.super_key matches Some(sk) ==> sk.wf(),
        ensures
            // The new key must name an alias, carry the wrapped data and
            // live in a caller or system domain.
            !((key@.domain == Domain::App || key@.domain == Domain::Selinux) && key@.blob is Some
                && key@.alias is Some) ==> r == Err::<
                (
                    KeyMetadata,
                    Option<NewKeyRecord>,
                    Option<BlobPersistRequest>,
                    ImportWrappedRequest,
                ),
                Error,
            >(Error::Km(ErrorCode::InvalidArgument)),
            // Self-managed raw blobs cannot serve as wrapping keys.
            ((key@.domain == Domain::App || key@.domain == Domain::Selinux) && key@.blob is Some
                && key@.alias is Some) && wrapping_key@.domain == Domain::Blob ==> r == Err::<
                (
                    KeyMetadata,
                    Option<NewKeyRecord>,
                    Option<BlobPersistRequest>,
                    ImportWrappedRequest,
                ),
                Error,
            >(Error::Km(ErrorCode::InvalidArgument)),
            r is Ok ==> env.rebind_granted,
            // A caller without the rebind capability is refused.
            ((key@.domain == Domain::App || key@.domain == Domain::Selinux) && key@.blob is Some
                && key@.alias is Some) && wrapping_key@.domain != Domain::Blob
                && !env.rebind_granted ==> r == Err::<
                (
                    KeyMetadata,
                    Option<NewKeyRecord>,
                    Option<BlobPersistRequest>,
                    ImportWrappedRequest,
                ),
                Error,
            >(Error::Rc(ResponseCode::PermissionDenied)),
            // A current wrapping key and a successful import are owed their
            // result, tied to the creation result.
            spec_import_wrapped_request_ok(key@, wrapping_key@, &env) && !spec_needs_rewrap(
                env.super_key,
                spec_wrapping_meta(&env),
            ) ==> (env.import.first matches Ok(cr) ==> self.spec_wrapped_key_filed(
                key@,
                env.caller_uid,
                cr.key_blob@,
                crate::types::characteristics_view(cr.key_characteristics@),
                cr.certificate_chain@,
                env.creation_date_ms,
                env.store_key_id,
                env.wrapping,
                r,
            )),
            // A wrapping key upgraded on the way: when it was stored plain,
            // its replacement record is owed with the new bytes, and the
            // import's result is owed as above, tied to the retried reply.
            spec_import_wrapped_request_ok(key@, wrapping_key@, &env) && spec_wrapping_meta(
                &env,
            ).wrapping is Plain ==> (env.import.upgrade matches Ok(nb) ==> (env.import.second
                matches Ok(cr) ==> (env.import.first == Err::<KeyCreationResult, ErrorCode>(
                ErrorCode::KeyRequiresUpgrade,
            ) ==> self.spec_wrapped_key_filed(
                key@,
                env.caller_uid,
                cr.key_blob@,
                crate::types::characteristics_view(cr.key_characteristics@),
                cr.certificate_chain@,
                env.creation_date_ms,
                env.store_key_id,
                env.wrapping,
                r,
            ) && (r matches Ok((_, _, wp, _)) ==> (wp matches Some(req) && req.blob@ == nb@))))),
            // The resolved authenticator bindings and masking key are
            // exactly what the request implies.
            r matches Ok((_, _, _, req)) ==> {
                &&& req.pw_sid == spec_sid_for(
                    authenticators@,
                    crate::types::HardwareAuthenticatorType::Password,
                )
                &&& req.fp_sid == spec_sid_for(
                    authenticators@,
                    crate::types::HardwareAuthenticatorType::Fingerprint,
                )
                &&& req.masking_key@ == (match masking_key {
                    Some(mk) => mk@,
                    None => Seq::new(32, |i: int| 0u8),
                })
            },
            // A wrapping key upgraded on the way is owed back to the store
            // under its own row.
            r matches Ok((_, _, wp, _)) ==> (wp matches Some(persist)
                ==> (env.wrapping_key_entry matches Ok(entry) && persist.key_id == entry.key_id
                && persist.blob_metadata@.km_uuid == Some(self.spec_km_uuid()))),
            // The new key is filed under the effective identity.
            r matches Ok((md, rec, _, _)) ==> {
                &&& md.key_security_level == self.spec_security_level()
                &&& rec matches Some(record) && record@.blob_metadata.km_uuid == Some(
                    self.spec_km_uuid(),
                ) && record@.descriptor.nspace == (if key@.domain == Domain::App {
                    env.caller_uid as i64
                } else {
                    key@.nspace
                }) && record@.descriptor.blob is None
            },
    {
        let valid_target = (key.domain == Domain::App || key.domain == Domain::Selinux)
            && key.blob.is_some() && key.alias.is_some();
        if !valid_target {
            return Err(Error::Km(ErrorCode::InvalidArgument));
        }
        if wrapping_key.domain == Domain::Blob {
            return Err(Error::Km(ErrorCode::InvalidArgument));
        }
        let key = match key.domain {
            Domain::App => KeyDescriptor {
                domain: Domain::App,
                nspace: env.caller_uid as i64,
                alias: match &key.alias {
                    Some(a) => Some(a.clone()),
                    None => None,
                },
                blob: None,
            },
            _ => KeyDescriptor {
                domain: Domain::Selinux,
                nspace: key.nspace,
                alias: match &key.alias {
                    Some(a) => Some(a.clone()),
                    None => None,
                },
                blob: None,
            },
        };
        if !env.rebind_granted {
            return Err(Error::perm());
        }
        let entry = match &env.wrapping_key_entry {
            Ok(entry) => entry,
            Err(e) => {
                return Err(*e);
            },
        };
        let (wrapping_blob, wrapping_metadata) = match &entry.blob_info {
            Some((b, m)) => (b, m),
            None => {
                return Err(Error::sys());
            },
        };
        if !wrapping_metadata.check_wf() {
            return Err(Error::Km(ErrorCode::InvalidKeyBlob));
        }
        let wrapping_key_blob = match unwrap_key_if_required(
            &env.super_key,
            wrapping_metadata,
            wrapping_blob.as_slice(),
        ) {
            Ok(b) => b,
            Err(e) => {
                return Err(e);
            },
        };
        let pw_sid = sid_for(authenticators, crate::types::HardwareAuthenticatorType::Password);
        let fp_sid = sid_for(authenticators, crate::types::HardwareAuthenticatorType::Fingerprint);
        let masking_key = match masking_key {
            Some(mk) => mk,
            None => zero_masking_key(),
        };
        let out = match self.upgrade_keyblob_if_required_with(
            Some(entry.key_id),
            &env.super_key,
            &wrapping_key_blob,
            env.import,
            env.reencrypt_store,
        ) {
            Ok(out) => out,
            Err(e) => {
                return Err(e);
            },
        };
        let user_id = uid_to_android_user(env.caller_uid);
        match self.store_new_key(
            key,
            out.payload,
            #[verifier::truncate] (user_id as i32),
            env.wrapping,
            env.creation_date_ms,
            env.store_key_id,
        ) {
            Ok((md, rec)) => Ok(
                (md, rec, out.persist, ImportWrappedRequest { masking_key, pw_sid, fp_sid }),
            ),
            Err(e) => Err(e),
        }
    }


    /// Begins a cryptographic operation on a key: raw blobs are used
    /// directly under the use (and, when forced, forced-operation)
    /// capability, stored keys are loaded and unwrapped; the purpose is
    /// taken from the parameters and stripped before the engine sees them;
    /// `begin` runs under the admission controller — evicting on slot
    /// exhaustion — wrapped in the upgrade protocol; an invalid blob raises
    /// an audit signal and is never retried; and an upgraded blob is owed
    /// back to the store, surfaced to the caller only for raw blobs.
    pub fn create_operation(
        &mut self,
        key: &KeyDescriptor,
        operation_parameters: &Vec<KeyParameter>,
        forced: bool,
        env: CreateOperationEnv,
    ) -> (r: CreateOperationRun)
        requires
            old(self).wf(),
            env.super_key matches Some(sk) ==> sk.wf(),
        ensures
            final(self).wf(),
            final(self).spec_security_level() == old(self).spec_security_level(),
            final(self).spec_hw_info() == old(self).spec_hw_info(),
            final(self).spec_km_uuid() == old(self).spec_km_uuid(),
            // The admission table never exceeds the engine-reported
            // capacity.
            final(self).spec_ops().len() <= final(self).spec_hw_info().operation_slots,
            // Raw blobs demand the use capability, and forced requests the
            // forced-operation capability; without bytes they are a system
            // error.
            key@.domain == Domain::Blob && !env.use_granted ==> r.result == Err::<
                CreateOperationResponse,
                Error,
            >(Error::Rc(ResponseCode::PermissionDenied)),
            key@.domain == Domain::Blob && env.use_granted && forced
                && !env.req_forced_op_granted ==> r.result == Err::<
                CreateOperationResponse,
                Error,
            >(Error::Rc(ResponseCode::PermissionDenied)),
            key@.domain == Domain::Blob && env.use_granted && (forced
                ==> env.req_forced_op_granted) && key@.blob is None ==> r.result == Err::<
                CreateOperationResponse,
                Error,
            >(Error::Rc(ResponseCode::SystemError)),
            // A stored key that fails to load, loads without a blob, or
            // loads with malformed metadata maps to exactly that error.
            key@.domain != Domain::Blob ==> (env.load_entry matches Err(e) ==> r.result == Err::<
                CreateOperationResponse,
                Error,
            >(e)),
            key@.domain != Domain::Blob ==> (env.load_entry matches Ok(entry) ==> {
                &&& (entry@.blob_info is None ==> r.result == Err::<
                    CreateOperationResponse,
                    Error,
                >(Error::Rc(ResponseCode::SystemError)))
                &&& ((entry@.blob_info matches Some((_, meta)) && !meta.wf()) ==> r.result
                    == Err::<CreateOperationResponse, Error>(Error::Km(ErrorCode::InvalidKeyBlob)))
            }),
            // A missing purpose, or a purpose carrying the wrong kind of
            // value, is a malformed request — for raw and stored keys alike.
            spec_blob_resolved(key@, forced, &env) ==> (spec_operation_purpose(
                crate::types::params_view(operation_parameters@),
            ) matches Err(e) ==> r.result == Err::<CreateOperationResponse, Error>(e)),
            // A refused authorization propagates.
            spec_blob_resolved(key@, forced, &env) && spec_operation_purpose(
                crate::types::params_view(operation_parameters@),
            ) is Ok ==> (env.auth_token matches Err(e) ==> r.result == Err::<
                CreateOperationResponse,
                Error,
            >(e)),
            // A blob that cannot be unwrapped: locked user, or failed
            // authentication.
            spec_blob_resolved(key@, forced, &env) && spec_operation_purpose(
                crate::types::params_view(operation_parameters@),
            ) is Ok && env.auth_token is Ok ==> {
                let meta = spec_op_blob_meta(key@, &env);
                &&& (meta.wrapping is SuperEncrypted && env.super_key is None ==> r.result
                    == Err::<CreateOperationResponse, Error>(Error::Rc(ResponseCode::Locked)))
                &&& (meta.wrapping matches crate::super_key::BlobWrappingView::SuperEncrypted {
                    iv,
                    tag,
                    ..
                } ==> (env.super_key matches Some(sk) ==> (crate::crypto::spec_gcm_open(
                    sk.spec_key(),
                    iv,
                    spec_op_blob_bytes(key@, &env),
                    tag,
                ) is None ==> r.result == Err::<CreateOperationResponse, Error>(
                    Error::Km(ErrorCode::InvalidKeyBlob),
                ))))
            },
            // Whatever was handed to the engine had the purpose stripped;
            // once the flow reaches the engine the handed list is reported.
            r.engine_params matches Some(ps) ==> crate::types::params_view(ps@)
                == spec_strip_purpose(crate::types::params_view(operation_parameters@)),
            spec_begin_reached(key@, crate::types::params_view(operation_parameters@), forced, &env)
                ==> r.engine_params is Some,
            // An upgraded blob is surfaced to the caller only for a
            // caller-managed raw blob.
            r.result matches Ok(resp) ==> (key@.domain != Domain::Blob ==> resp.upgraded_blob
                is None),
            // The audit signal accompanies exactly the invalid-blob error.
            r.audit_integrity_violation is Some ==> r.result == Err::<
                CreateOperationResponse,
                Error,
            >(Error::Km(ErrorCode::InvalidKeyBlob)),
            // A stored key's upgraded blob is owed back under its row.
            r.persist matches Some(req) ==> (key@.domain == Domain::Blob || (env.load_entry
                matches Ok(entry) && req.key_id == entry.key_id && req.blob_metadata@.km_uuid
                == Some(old(self).spec_km_uuid()))),
            // The result is a function of the engine's and store's replies:
            // an admission run that grants the operation forces success,
            // tied to the granting reply; slot exhaustion beyond the bound,
            // an invalid blob and every other engine error map to exactly
            // that error; an upgrade demand runs the upgrade protocol and
            // retries once on the new blob.
            ({
                let pv = crate::types::params_view(operation_parameters@);
                let capacity = old(self).spec_hw_info().operation_slots;
                let s1 = spec_begin_run(
                    old(self).spec_ops(),
                    capacity,
                    env.caller_uid,
                    forced,
                    env.created_at,
                    env.begin_first@,
                    0,
                );
                spec_begin_reached(key@, pv, forced, &env) ==> {
                    &&& (s1.run.result matches Ok(br) ==> {
                        &&& final(self).spec_ops() == s1.ops
                        &&& r.eviction_cycles == s1.run.eviction_cycles
                        &&& (!spec_needs_rewrap(env.super_key, spec_op_blob_meta(key@, &env))
                            ==> r.result is Ok && r.persist is None)
                        &&& (spec_needs_rewrap(env.super_key, spec_op_blob_meta(key@, &env)) ==> (
                        r.result is Ok || r.result == Err::<CreateOperationResponse, Error>(
                            Error::Rc(ResponseCode::SystemError),
                        )) && (r.result is Ok ==> r.persist is Some))
                        &&& (r.result matches Ok(resp) ==> spec_response_matches(
                            old(self).spec_hw_info(),
                            br,
                            resp,
                        ) && resp.upgraded_blob is None)
                    })
                    &&& (s1.run.result matches Err(e) ==> (e != Error::Km(
                        ErrorCode::KeyRequiresUpgrade,
                    ) ==> r.result == Err::<CreateOperationResponse, Error>(e)
                        && final(self).spec_ops() == s1.ops && r.eviction_cycles
                        == s1.run.eviction_cycles && r.persist is None))
                    &&& (s1.run.invalid_blob_detected ==> (key@.domain != Domain::Blob
                        ==> r.audit_integrity_violation == env.audit_descriptor))
                    &&& (s1.run.result == Err::<BeginResult, Error>(
                        Error::Km(ErrorCode::KeyRequiresUpgrade),
                    ) ==> (env.upgrade matches Err(e) ==> r.result == Err::<
                        CreateOperationResponse,
                        Error,
                    >(e) && final(self).spec_ops() == s1.ops))
                    &&& (s1.run.result == Err::<BeginResult, Error>(
                        Error::Km(ErrorCode::KeyRequiresUpgrade),
                    ) ==> (env.upgrade matches Ok(nb) ==> {
                        let s2 = spec_begin_run(
                            s1.ops,
                            capacity,
                            env.caller_uid,
                            forced,
                            env.created_at,
                            env.begin_second@,
                            0,
                        );
                        &&& (key@.domain == Domain::Blob ==> {
                            &&& r.persist is None
                            &&& r.audit_integrity_violation is None
                            &&& (s2.run.result matches Ok(br2) ==> r.result is Ok
                                && final(self).spec_ops() == s2.ops && r.eviction_cycles
                                == spec_sat_add(
                                s1.run.eviction_cycles,
                                s2.run.eviction_cycles,
                            ) && (r.result matches Ok(resp) ==> spec_response_matches(
                                old(self).spec_hw_info(),
                                br2,
                                resp,
                            ) && (resp.upgraded_blob matches Some(b) && b@ == nb@)))
                            &&& (s2.run.result matches Err(e2) ==> r.result == Err::<
                                CreateOperationResponse,
                                Error,
                            >(e2))
                        })
                        &&& (key@.domain != Domain::Blob && spec_op_blob_meta(
                            key@,
                            &env,
                        ).wrapping is Plain ==> {
                            &&& (r.persist matches Some(req) ==> req.blob@ == nb@)
                            &&& (s2.run.result matches Ok(br2) ==> r.result is Ok && r.persist
                                is Some && final(self).spec_ops() == s2.ops && (r.result
                                matches Ok(resp) ==> spec_response_matches(
                                old(self).spec_hw_info(),
                                br2,
                                resp,
                            ) && resp.upgraded_blob is None))
                            &&& (s2.run.result matches Err(e2) ==> r.result == Err::<
                                CreateOperationResponse,
                                Error,
                            >(e2) && r.persist is Some)
                            &&& (s2.run.invalid_blob_detected ==> r.audit_integrity_violation
                                == env.audit_descriptor)
                        })
                        &&& (key@.domain != Domain::Blob && spec_op_blob_meta(
                            key@,
                            &env,
                        ).wrapping is SuperEncrypted ==> (s2.run.result is Ok ==> (r.result is Ok
                            || r.result == Err::<CreateOperationResponse, Error>(
                            Error::Rc(ResponseCode::SystemError),
                        ))))
                    }))
                }
            }),
    {
        let caller_uid = env.caller_uid;
        let mut audit: Option<KeyDescriptor> = None;
        // Resolve the blob: from the descriptor for raw blobs, from the
        // store for everything else.
        let (km_blob_bytes, key_id, blob_metadata): (&Vec<u8>, Option<i64>, BlobMetaData) =
            match key.domain {
            Domain::Blob => {
                if !env.use_granted {
                    return CreateOperationRun {
                        result: Err(Error::perm()),
                        persist: None,
                        audit_integrity_violation: None,
                        engine_params: None,
                        eviction_cycles: 0,
                    };
                }
                if forced && !env.req_forced_op_granted {
                    return CreateOperationRun {
                        result: Err(Error::perm()),
                        persist: None,
                        audit_integrity_violation: None,
                        engine_params: None,
                        eviction_cycles: 0,
                    };
                }
                match &key.blob {
                    Some(blob) => (blob, None, BlobMetaData::new()),
                    None => {
                        return CreateOperationRun {
                            result: Err(Error::sys()),
                            persist: None,
                            audit_integrity_violation: None,
                            engine_params: None,
                            eviction_cycles: 0,
                        };
                    },
                }
            },
            _ => {
                let entry = match &env.load_entry {
                    Ok(entry) => entry,
                    Err(e) => {
                        return CreateOperationRun {
                            result: Err(*e),
                            persist: None,
                            audit_integrity_violation: None,
                            engine_params: None,
                            eviction_cycles: 0,
                        };
                    },
                };
                match &entry.blob_info {
                    Some((blob, metadata)) => {
                        if !metadata.check_wf() {
                            return CreateOperationRun {
                                result: Err(Error::Km(ErrorCode::InvalidKeyBlob)),
                                persist: None,
                                audit_integrity_violation: None,
                                engine_params: None,
                                eviction_cycles: 0,
                            };
                        }
                        let meta = BlobMetaData {
                            km_uuid: metadata.km_uuid,
                            wrapping: match &metadata.wrapping {
                                BlobWrapping::Plain => BlobWrapping::Plain,
                                BlobWrapping::SuperEncrypted { generation, iv, tag } => {
                                    let iv2 = vstd::slice::slice_to_vec(iv.as_slice());
                                    let tag2 = vstd::slice::slice_to_vec(tag.as_slice());
                                    proof {
                                        assert(iv2@ =~= iv@);
                                        assert(tag2@ =~= tag@);
                                    }
                                    BlobWrapping::SuperEncrypted {
                                        generation: *generation,
                                        iv: iv2,
                                        tag: tag2,
                                    }
                                },
                            },
                        };
                        (blob, Some(entry.key_id), meta)
                    },
                    None => {
                        return CreateOperationRun {
                            result: Err(Error::sys()),
                            persist: None,
                            audit_integrity_violation: None,
                            engine_params: None,
                            eviction_cycles: 0,
                        };
                    },
                }
            },
        };
        // The requested purpose, stripped from what the engine will see.
        let _purpose = match operation_purpose(operation_parameters) {
            Ok(p) => p,
            Err(e) => {
                return CreateOperationRun {
                    result: Err(e),
                    persist: None,
                    audit_integrity_violation: None,
                    engine_params: None,
                    eviction_cycles: 0,
                };
            },
        };
        let op_params = strip_purpose_params(operation_parameters);
        // Immediate authorization from the enforcement collaborator.
        let _immediate_hat = match &env.auth_token {
            Ok(hat) => hat,
            Err(e) => {
                return CreateOperationRun {
                    result: Err(*e),
                    persist: None,
                    audit_integrity_violation: None,
                    engine_params: Some(op_params),
                    eviction_cycles: 0,
                };
            },
        };
        // Recover the plaintext blob from super-encryption.
        let km_blob = match unwrap_key_if_required(
            &env.super_key,
            &blob_metadata,
            km_blob_bytes.as_slice(),
        ) {
            Ok(b) => b,
            Err(e) => {
                return CreateOperationRun {
                    result: Err(e),
                    persist: None,
                    audit_integrity_violation: None,
                    engine_params: Some(op_params),
                    eviction_cycles: 0,
                };
            },
        };
        // First round of begin attempts, evicting under slot exhaustion.
        let ghost pre_ops1 = self.operation_db.spec_ops();
        let ghost outs1 = env.begin_first@;
        let run1 = crate::admission::begin_attempt_loop(
            &mut self.operation_db,
            caller_uid,
            forced,
            env.created_at,
            env.begin_first,
        );
        proof {
            crate::admission::lemma_begin_run_invalid_blob(
                pre_ops1,
                self.operation_db.spec_capacity(),
                caller_uid,
                forced,
                env.created_at,
                outs1,
                0,
            );
            crate::admission::lemma_begin_run_ok_has_operation(
                pre_ops1,
                self.operation_db.spec_capacity(),
                caller_uid,
                forced,
                env.created_at,
                outs1,
                0,
            );
        }
        let mut persist: Option<BlobPersistRequest> = None;
        let mut upgraded_blob: Option<Vec<u8>> = None;
        let mut evictions = run1.eviction_cycles;
        let begin_result = match run1.result {
            Ok(br) => {
                // The blob is current; a forced re-wrap may still be owed.
                if km_blob.force_reencrypt() {
                    if let Some(kid) = key_id {
                        match Self::store_upgraded_keyblob(
                            kid,
                            Some(self.km_uuid),
                            &env.super_key,
                            &km_blob,
                            km_blob.as_slice(),
                        ) {
                            Ok(req) => {
                                persist = Some(req);
                            },
                            Err(e) => {
                                return CreateOperationRun {
                                    result: Err(e),
                                    persist: None,
                                    audit_integrity_violation: None,
                                    engine_params: Some(op_params),
                                    eviction_cycles: evictions,
                                };
                            },
                        }
                    }
                }
                br
            },
            Err(Error::Km(ErrorCode::KeyRequiresUpgrade)) => {
                let new_blob = match env.upgrade {
                    Ok(nb) => nb,
                    Err(e) => {
                        return CreateOperationRun {
                            result: Err(e),
                            persist: None,
                            audit_integrity_violation: None,
                            engine_params: Some(op_params),
                            eviction_cycles: evictions,
                        };
                    },
                };
                if let Some(kid) = key_id {
                    match Self::store_upgraded_keyblob(
                        kid,
                        Some(self.km_uuid),
                        &env.super_key,
                        &km_blob,
                        new_blob.as_slice(),
                    ) {
                        Ok(req) => {
                            persist = Some(req);
                        },
                        Err(e) => {
                            return CreateOperationRun {
                                result: Err(e),
                                persist: None,
                                audit_integrity_violation: None,
                                engine_params: Some(op_params),
                                eviction_cycles: evictions,
                            };
                        },
                    }
                }
                let ghost pre_ops2 = self.operation_db.spec_ops();
                let ghost outs2 = env.begin_second@;
                let run2 = crate::admission::begin_attempt_loop(
                    &mut self.operation_db,
                    caller_uid,
                    forced,
                    env.created_at,
                    env.begin_second,
                );
                proof {
                    crate::admission::lemma_begin_run_invalid_blob(
                        pre_ops2,
                        self.operation_db.spec_capacity(),
                        caller_uid,
                        forced,
                        env.created_at,
                        outs2,
                        0,
                    );
                    crate::admission::lemma_begin_run_ok_has_operation(
                        pre_ops2,
                        self.operation_db.spec_capacity(),
                        caller_uid,
                        forced,
                        env.created_at,
                        outs2,
                        0,
                    );
                }
                evictions = sat_add(evictions, run2.eviction_cycles);
                match run2.result {
                    Ok(br) => {
                        upgraded_blob = Some(new_blob);
                        br
                    },
                    Err(e) => {
                        if run2.invalid_blob_detected && key_id.is_some() {
                            audit = env.audit_descriptor;
                        }
                        return CreateOperationRun {
                            result: Err(e),
                            persist,
                            audit_integrity_violation: audit,
                            engine_params: Some(op_params),
                            eviction_cycles: evictions,
                        };
                    },
                }
            },
            Err(e) => {
                if run1.invalid_blob_detected && key_id.is_some() {
                    audit = env.audit_descriptor;
                }
                return CreateOperationRun {
                    result: Err(e),
                    persist: None,
                    audit_integrity_violation: audit,
                    engine_params: Some(op_params),
                    eviction_cycles: evictions,
                };
            },
        };
        let op_id = match begin_result.operation {
            Some(op) => op,
            None => {
                return CreateOperationRun {
                    result: Err(Error::sys()),
                    persist,
                    audit_integrity_violation: None,
                    engine_params: Some(op_params),
                    eviction_cycles: evictions,
                };
            },
        };
        // Assemble the response; the upgraded blob is surfaced only for
        // caller-managed raw blobs.
        let response = CreateOperationResponse {
            op_id,
            operation_challenge: if self.hw_info.timestamp_token_required {
                Some(begin_result.challenge)
            } else {
                None
            },
            parameters: if begin_result.params.len() == 0 {
                None
            } else {
                Some(begin_result.params)
            },
            upgraded_blob: if key.domain == Domain::Blob {
                upgraded_blob
            } else {
                None
            },
        };
        CreateOperationRun {
            result: Ok(response),
            persist,
            audit_integrity_violation: None,
            engine_params: Some(op_params),
            eviction_cycles: evictions,
        }
    }

    /// Builds the blob-replacement record for an upgraded blob: re-wrapped
    /// for storage when the blob it replaces was super-encrypted, with the
    /// producing engine recorded.  Persisting it is the caller's store
    /// write; the record is produced on every upgrade path, else upgraded
    /// blobs would be lost on restart.
    pub fn store_upgraded_keyblob(
        key_id: i64,
        km_uuid: Option<Uuid>,
        super_key: &Option<SuperKey>,
        key_blob: &KeyBlob<'_>,
        upgraded_blob: &[u8],
    ) -> (r: Result<BlobPersistRequest, Error>)
        requires
            super_key matches Some(sk) ==> sk.wf(),
        ensures
            r matches Ok(req) ==> req.key_id == key_id && req.blob_metadata@.km_uuid == km_uuid,
            !(key_blob is Sensitive) ==> (r matches Ok(req) && req.blob@ == upgraded_blob@
                && req.blob_metadata@.wrapping is Plain),
            key_blob is Sensitive ==> (super_key is Some ==> (r is Err ==> r == Err::<
                BlobPersistRequest,
                Error,
            >(Error::Rc(ResponseCode::SystemError)))),
            key_blob is Sensitive && super_key is None ==> r == Err::<BlobPersistRequest, Error>(
                Error::Rc(ResponseCode::Locked),
            ),
            key_blob is Sensitive ==> (super_key matches Some(sk) ==> (r matches Ok(req)
                ==> req.blob_metadata@.wrapping matches
                crate::super_key::BlobWrappingView::SuperEncrypted { generation, iv, tag }
                && generation == sk.spec_generation() && crate::crypto::spec_gcm_open(
                sk.spec_key(),
                iv,
                req.blob@,
                tag,
            ) == Some(upgraded_blob@))),
    {
        match reencrypt_if_required(super_key, key_blob, upgraded_blob) {
            Err(e) => Err(e),
            Ok((blob, metadata)) => {
                let mut metadata = match metadata {
                    Some(m) => m,
                    None => BlobMetaData::new(),
                };
                match km_uuid {
                    Some(uuid) => {
                        let wrapping = metadata.wrapping;
                        metadata = BlobMetaData { km_uuid: Some(uuid), wrapping };
                    },
                    None => {
                        let wrapping = metadata.wrapping;
                        metadata = BlobMetaData { km_uuid: None, wrapping };
                    },
                }
                Ok(BlobPersistRequest { key_id, blob, blob_metadata: metadata })
            },
        }
    }
}

} // verus!
