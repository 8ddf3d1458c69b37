//! Tests of the lifecycle service: the full generate → store → load → use
//! round trip, the entry-point validations, and the policy-check model.

use keystore2::crypto::{aes_gcm_decrypt, aes_gcm_encrypt, generate_aes256_key, ZVec};
use keystore2::device::{DevicesMap, HardwareInfo, NativeEngine, ServiceDirectory};
use keystore2::lifecycle::{
    import_key_format, operation_purpose, strip_purpose_params, unify_certificate_chain,
    zero_masking_key, CreateOperationEnv, GenerateKeyEnv, ImportKeyEnv, ImportWrappedKeyEnv,
    KeystoreSecurityLevel, RequiredParamsEnv, StorageWrapping, UNDEFINED_NOT_AFTER,
};
use keystore2::raw_device::EngineUpgradeEvents;
use keystore2::selinux::{check_access, check_permission, Context, KeyPerm, PolicyRule, PolicySet};
use keystore2::store::KeyEntry;
use keystore2::super_key::{unwrap_key_if_required, SuperKey};
use keystore2::types::{
    Algorithm, AuthenticatorSpec, BeginResult, Certificate, Domain, Error, ErrorCode,
    HardwareAuthenticatorType, KeyCreationResult, KeyDescriptor, KeyFormat, KeyParameter,
    KeyParameterValue, KeyPurpose, ResponseCode, SecurityLevel, Tag, Uuid,
};

fn directory() -> ServiceDirectory {
    ServiceDirectory {
        declared_instances: vec!["default".to_owned()],
        default_engine: Some(NativeEngine {
            interface_version: 2,
            hw_info: HardwareInfo {
                version_number: 0,
                security_level: SecurityLevel::TrustedEnvironment,
                uuid: Uuid { value: 1 },
                timestamp_token_required: false,
                operation_slots: 8,
            },
        }),
        strongbox_engine: None,
        legacy_engine: None,
        clock_instances: vec![],
        secure_clock: None,
        rpc_default_declared: false,
        rpc_strongbox_declared: false,
    }
}

fn service() -> KeystoreSecurityLevel {
    let mut devices = DevicesMap::new();
    let dir = directory();
    let (service, uuid) =
        KeystoreSecurityLevel::new_native_binder(SecurityLevel::TrustedEnvironment, &mut devices, &dir)
            .unwrap();
    assert_eq!(uuid, Uuid { value: 1 });
    service
}

fn required_env() -> RequiredParamsEnv {
    RequiredParamsEnv {
        now_ms: 1_700_000_000_000,
        aaid: Ok(vec![0xaa, 0x1d]),
        gen_unique_id_permitted: false,
        had_factory_reset: Ok(false),
        device_attestation_permitted: false,
    }
}

fn super_key() -> SuperKey {
    SuperKey::new(ZVec::from_bytes(&[7u8; 32]), 1).unwrap()
}

fn plain_events(cr: KeyCreationResult) -> EngineUpgradeEvents<KeyCreationResult> {
    EngineUpgradeEvents {
        first: Ok(cr),
        upgrade: Err(Error::Rc(ResponseCode::SystemError)),
        persist: Ok(()),
        second: Err(ErrorCode::InvalidArgument),
    }
}

fn ok_begin(op_id: u64) -> Result<BeginResult, ErrorCode> {
    Ok(BeginResult { challenge: 11, operation: Some(op_id), params: vec![] })
}

/// Round trip: generate → store → load → use with unchanged parameters
/// succeeds, and using the loaded key gives the same plaintext output as a
/// direct, unstored use of the freshly generated key (for a symmetric
/// encrypt/decrypt key).
#[test]
fn generate_store_load_use_round_trip() {
    let mut service = service();
    let dir = directory();
    let sk = super_key();

    // The engine generates a fresh symmetric key; its blob holds the key.
    let engine_key = generate_aes256_key().unwrap();
    let fresh_blob = engine_key.as_slice().to_vec();
    let creation = KeyCreationResult {
        key_blob: fresh_blob.clone(),
        key_characteristics: vec![],
        certificate_chain: vec![],
    };
    let alias_key = KeyDescriptor {
        domain: Domain::App,
        nspace: 0,
        alias: Some("round-trip".to_owned()),
        blob: None,
    };
    let env = GenerateKeyEnv {
        caller_uid: 10_100,
        rebind_granted: true,
        attest_key_info: None,
        required: required_env(),
        generate: plain_events(creation),
        processed_certificate_chain: None,
        wrapping: StorageWrapping::SuperEncrypt(&sk),
        dir: &dir,
        creation_date_ms: 1111,
        store_key_id: Ok(42),
        reencrypt_store: Ok(()),
    };
    let (md, record, attest_persist, attest_request) =
        service.generate_key(&alias_key, &vec![], env).unwrap();
    assert!(attest_persist.is_none());
    assert!(attest_request.is_none());
    assert_eq!(md.key.domain, Domain::KeyId);
    assert_eq!(md.key.nspace, 42);
    let record = record.unwrap();
    // Stored super-encrypted: the blob at rest differs from the fresh one.
    assert_ne!(record.blob, fresh_blob);

    // "Load": unwrapping the stored blob recovers the fresh key exactly.
    let recovered =
        unwrap_key_if_required(&Some(super_key()), &record.blob_metadata, &record.blob).unwrap();
    assert_eq!(recovered.as_slice(), fresh_blob.as_slice());

    // "Use": encrypting with the recovered key and decrypting with the
    // fresh key yields the same plaintext as the direct, unstored use.
    let (ct, iv, tag) = aes_gcm_encrypt(b"round trip payload", recovered.as_slice()).unwrap();
    let direct = aes_gcm_decrypt(&ct, &iv, &tag, &fresh_blob).unwrap();
    assert_eq!(direct.as_slice(), b"round trip payload");

    // begin + finish through the service on the loaded entry succeeds.
    let entry = KeyEntry {
        key_id: 42,
        blob_info: Some((record.blob, record.blob_metadata)),
        parameters: vec![],
    };
    let cenv = CreateOperationEnv {
        caller_uid: 10_100,
        use_granted: true,
        req_forced_op_granted: false,
        load_entry: Ok(entry),
        super_key: Some(super_key()),
        auth_token: Ok(None),
        begin_first: vec![ok_begin(1)],
        upgrade: Err(Error::Rc(ResponseCode::SystemError)),
        persist: Ok(()),
        begin_second: vec![],
        reencrypt_store: Ok(()),
        created_at: 5,
        audit_descriptor: None,
    };
    let by_id = KeyDescriptor { domain: Domain::KeyId, nspace: 42, alias: None, blob: None };
    let purpose_params = vec![KeyParameter {
        tag: Tag::Purpose,
        value: KeyParameterValue::KeyPurpose(KeyPurpose::Encrypt),
    }];
    let run = service.create_operation(&by_id, &purpose_params, false, cenv);
    let resp = run.result.unwrap();
    assert_eq!(resp.op_id, 1);
    // An upgraded blob is never surfaced for a stored key.
    assert!(resp.upgraded_blob.is_none());
    assert!(run.persist.is_none());
    // The engine saw the parameters without the purpose tag.
    assert_eq!(run.engine_params.unwrap().len(), 0);
    assert_eq!(run.eviction_cycles, 0);
}

#[test]
fn create_operation_needs_a_purpose() {
    let mut service = service();
    let blob_key = KeyDescriptor {
        domain: Domain::Blob,
        nspace: 0,
        alias: None,
        blob: Some(vec![1, 2, 3]),
    };
    let cenv = CreateOperationEnv {
        caller_uid: 1,
        use_granted: true,
        req_forced_op_granted: true,
        load_entry: Err(Error::Rc(ResponseCode::KeyNotFound)),
        super_key: None,
        auth_token: Ok(None),
        begin_first: vec![ok_begin(1)],
        upgrade: Err(Error::Rc(ResponseCode::SystemError)),
        persist: Ok(()),
        begin_second: vec![],
        reencrypt_store: Ok(()),
        created_at: 0,
        audit_descriptor: None,
    };
    let run = service.create_operation(&blob_key, &vec![], false, cenv);
    assert_eq!(run.result.unwrap_err(), Error::Km(ErrorCode::InvalidArgument));
}

/// A raw blob upgraded on `begin` is surfaced to the caller — only raw
/// blobs may see upgraded blobs.
#[test]
fn create_operation_surfaces_upgrade_for_raw_blob() {
    let mut service = service();
    let blob_key = KeyDescriptor {
        domain: Domain::Blob,
        nspace: 0,
        alias: None,
        blob: Some(vec![1, 2, 3]),
    };
    let cenv = CreateOperationEnv {
        caller_uid: 1,
        use_granted: true,
        req_forced_op_granted: false,
        load_entry: Err(Error::Rc(ResponseCode::KeyNotFound)),
        super_key: None,
        auth_token: Ok(None),
        begin_first: vec![Err(ErrorCode::KeyRequiresUpgrade)],
        upgrade: Ok(vec![9, 9]),
        persist: Ok(()),
        begin_second: vec![ok_begin(4)],
        reencrypt_store: Ok(()),
        created_at: 0,
        audit_descriptor: None,
    };
    let purpose_params = vec![KeyParameter {
        tag: Tag::Purpose,
        value: KeyParameterValue::KeyPurpose(KeyPurpose::Decrypt),
    }];
    let run = service.create_operation(&blob_key, &purpose_params, false, cenv);
    let resp = run.result.unwrap();
    assert_eq!(resp.upgraded_blob.unwrap(), vec![9, 9]);
    // A raw blob has no store row: nothing owed to the store.
    assert!(run.persist.is_none());
}

/// An invalid blob raises the audit signal and the error is never retried.
#[test]
fn create_operation_flags_integrity_violation() {
    let mut service = service();
    let entry = KeyEntry { key_id: 7, blob_info: Some((vec![1], keystore2::super_key::BlobMetaData::new())), parameters: vec![] };
    let by_id = KeyDescriptor { domain: Domain::KeyId, nspace: 7, alias: None, blob: None };
    let audit_desc = KeyDescriptor {
        domain: Domain::App,
        nspace: 1,
        alias: Some("victim".to_owned()),
        blob: None,
    };
    let cenv = CreateOperationEnv {
        caller_uid: 1,
        use_granted: true,
        req_forced_op_granted: false,
        load_entry: Ok(entry),
        super_key: None,
        auth_token: Ok(None),
        begin_first: vec![Err(ErrorCode::InvalidKeyBlob), ok_begin(1)],
        upgrade: Err(Error::Rc(ResponseCode::SystemError)),
        persist: Ok(()),
        begin_second: vec![],
        reencrypt_store: Ok(()),
        created_at: 0,
        audit_descriptor: Some(audit_desc),
    };
    let purpose_params = vec![KeyParameter {
        tag: Tag::Purpose,
        value: KeyParameterValue::KeyPurpose(KeyPurpose::Sign),
    }];
    let run = service.create_operation(&by_id, &purpose_params, false, cenv);
    assert_eq!(run.result.unwrap_err(), Error::Km(ErrorCode::InvalidKeyBlob));
    assert_eq!(run.audit_integrity_violation.unwrap().alias.unwrap(), "victim".to_owned());
}

#[test]
fn add_required_parameters_rejects_caller_timestamp() {
    let service = service();
    let params = vec![KeyParameter {
        tag: Tag::CreationDatetime,
        value: KeyParameterValue::DateTime(1),
    }];
    let r = service.add_required_parameters(&params, required_env());
    assert_eq!(r.unwrap_err(), Error::Rc(ResponseCode::InvalidArgument));
}

#[test]
fn add_required_parameters_augments() {
    let service = service();
    let params = vec![
        KeyParameter { tag: Tag::Algorithm, value: KeyParameterValue::Algorithm(Algorithm::Ec) },
        KeyParameter { tag: Tag::AttestationChallenge, value: KeyParameterValue::Blob(vec![1]) },
    ];
    let r = service.add_required_parameters(&params, required_env()).unwrap();
    // Original two, the creation time, the attestation application id, and
    // the two validity bounds for an asymmetric algorithm.
    assert_eq!(r.len(), 6);
    assert_eq!(r[2].tag, Tag::CreationDatetime);
    match &r[2].value {
        KeyParameterValue::DateTime(t) => assert_eq!(*t, 1_700_000_000_000),
        _ => panic!("wrong creation time value"),
    }
    assert_eq!(r[3].tag, Tag::AttestationApplicationId);
    match &r[3].value {
        KeyParameterValue::Blob(b) => assert_eq!(b, &vec![0xaa, 0x1d]),
        _ => panic!("wrong attestation id value"),
    }
    assert_eq!(r[4].tag, Tag::CertificateNotBefore);
    assert_eq!(r[5].tag, Tag::CertificateNotAfter);
    match &r[5].value {
        KeyParameterValue::DateTime(t) => assert_eq!(*t, UNDEFINED_NOT_AFTER),
        _ => panic!("wrong not-after value"),
    }
}

#[test]
fn add_required_parameters_enforces_unique_id_permission() {
    let service = service();
    let params = vec![KeyParameter {
        tag: Tag::IncludeUniqueId,
        value: KeyParameterValue::BoolValue(true),
    }];
    let r = service.add_required_parameters(&params, required_env());
    assert_eq!(r.unwrap_err(), Error::Rc(ResponseCode::PermissionDenied));
    let mut env = required_env();
    env.gen_unique_id_permitted = true;
    env.had_factory_reset = Ok(true);
    let r = service.add_required_parameters(&params, env).unwrap();
    assert_eq!(r.last().unwrap().tag, Tag::ResetSinceIdRotation);
}

#[test]
fn generate_key_validations() {
    let service = service();
    let dir = directory();
    let no_alias = KeyDescriptor { domain: Domain::App, nspace: 0, alias: None, blob: None };
    let env = GenerateKeyEnv {
        caller_uid: 1,
        rebind_granted: true,
        attest_key_info: None,
        required: required_env(),
        generate: plain_events(KeyCreationResult {
            key_blob: vec![],
            key_characteristics: vec![],
            certificate_chain: vec![],
        }),
        processed_certificate_chain: None,
        wrapping: StorageWrapping::Plain,
        dir: &dir,
        creation_date_ms: 0,
        store_key_id: Ok(1),
        reencrypt_store: Ok(()),
    };
    let r = service.generate_key(&no_alias, &vec![], env);
    assert_eq!(r.unwrap_err(), Error::Km(ErrorCode::InvalidArgument));
}

#[test]
fn import_key_format_selection() {
    let aes = vec![KeyParameter {
        tag: Tag::Algorithm,
        value: KeyParameterValue::Algorithm(Algorithm::Aes),
    }];
    assert_eq!(import_key_format(&aes).unwrap(), KeyFormat::Raw);
    let rsa = vec![KeyParameter {
        tag: Tag::Algorithm,
        value: KeyParameterValue::Algorithm(Algorithm::Rsa),
    }];
    assert_eq!(import_key_format(&rsa).unwrap(), KeyFormat::Pkcs8);
    let none: Vec<KeyParameter> = vec![];
    assert_eq!(import_key_format(&none).unwrap_err(), Error::Km(ErrorCode::InvalidArgument));
    let malformed = vec![KeyParameter {
        tag: Tag::Algorithm,
        value: KeyParameterValue::Integer(3),
    }];
    assert_eq!(
        import_key_format(&malformed).unwrap_err(),
        Error::Km(ErrorCode::InvalidArgument)
    );
}

#[test]
fn import_key_files_the_result() {
    let service = service();
    let key = KeyDescriptor {
        domain: Domain::App,
        nspace: 0,
        alias: Some("imported".to_owned()),
        blob: None,
    };
    let params = vec![KeyParameter {
        tag: Tag::Algorithm,
        value: KeyParameterValue::Algorithm(Algorithm::Aes),
    }];
    let env = ImportKeyEnv {
        caller_uid: 10_100,
        rebind_granted: true,
        required: required_env(),
        import: Ok(KeyCreationResult {
            key_blob: vec![5, 5, 5],
            key_characteristics: vec![],
            certificate_chain: vec![],
        }),
        wrapping: StorageWrapping::Plain,
        creation_date_ms: 3,
        store_key_id: Ok(9),
    };
    let (md, rec) = service.import_key(&key, &params, env).unwrap();
    assert_eq!(md.key.nspace, 9);
    let rec = rec.unwrap();
    assert_eq!(rec.blob, vec![5, 5, 5]);
    assert_eq!(rec.descriptor.nspace, 10_100);
    assert_eq!(rec.km_uuid, Uuid { value: 1 });
}

#[test]
fn import_wrapped_key_resolves_bindings() {
    let service = service();
    let key = KeyDescriptor {
        domain: Domain::App,
        nspace: 0,
        alias: Some("wrapped".to_owned()),
        blob: Some(vec![0xde, 0xad]),
    };
    let wrapping_key = KeyDescriptor {
        domain: Domain::App,
        nspace: 0,
        alias: Some("wrapper".to_owned()),
        blob: None,
    };
    let authenticators = vec![
        AuthenticatorSpec {
            authenticator_type: HardwareAuthenticatorType::Fingerprint,
            authenticator_id: 66,
        },
        AuthenticatorSpec {
            authenticator_type: HardwareAuthenticatorType::Password,
            authenticator_id: 33,
        },
    ];
    let entry = KeyEntry {
        key_id: 5,
        blob_info: Some((vec![1, 2], keystore2::super_key::BlobMetaData::new())),
        parameters: vec![],
    };
    let env = ImportWrappedKeyEnv {
        caller_uid: 77,
        rebind_granted: true,
        wrapping_key_entry: Ok(entry),
        super_key: None,
        import: plain_events(KeyCreationResult {
            key_blob: vec![8],
            key_characteristics: vec![],
            certificate_chain: vec![],
        }),
        wrapping: StorageWrapping::Plain,
        creation_date_ms: 0,
        store_key_id: Ok(2),
        reencrypt_store: Ok(()),
    };
    let (_md, _rec, wrap_persist, req) = service
        .import_wrapped_key(&key, &wrapping_key, None, &authenticators, env)
        .unwrap();
    assert!(wrap_persist.is_none());
    assert_eq!(req.pw_sid, 33);
    assert_eq!(req.fp_sid, 66);
    assert_eq!(req.masking_key, zero_masking_key());
    assert_eq!(req.masking_key, vec![0u8; 32]);
}

#[test]
fn import_wrapped_key_rejects_blob_wrapping_key() {
    let service = service();
    let key = KeyDescriptor {
        domain: Domain::App,
        nspace: 0,
        alias: Some("wrapped".to_owned()),
        blob: Some(vec![1]),
    };
    let raw_wrapper = KeyDescriptor {
        domain: Domain::Blob,
        nspace: 0,
        alias: None,
        blob: Some(vec![2]),
    };
    let env = ImportWrappedKeyEnv {
        caller_uid: 1,
        rebind_granted: true,
        wrapping_key_entry: Err(Error::Rc(ResponseCode::KeyNotFound)),
        super_key: None,
        import: plain_events(KeyCreationResult {
            key_blob: vec![],
            key_characteristics: vec![],
            certificate_chain: vec![],
        }),
        wrapping: StorageWrapping::Plain,
        creation_date_ms: 0,
        store_key_id: Ok(1),
        reencrypt_store: Ok(()),
    };
    let r = service.import_wrapped_key(&key, &raw_wrapper, None, &vec![], env);
    assert_eq!(r.unwrap_err(), Error::Km(ErrorCode::InvalidArgument));
}

#[test]
fn delete_key_validations() {
    let service = service();
    let not_blob = KeyDescriptor { domain: Domain::App, nspace: 0, alias: None, blob: None };
    assert_eq!(
        service.delete_key(&not_blob, true, Ok(())).unwrap_err(),
        Error::Km(ErrorCode::InvalidArgument)
    );
    let blob = KeyDescriptor { domain: Domain::Blob, nspace: 0, alias: None, blob: Some(vec![1]) };
    assert_eq!(
        service.delete_key(&blob, false, Ok(())).unwrap_err(),
        Error::Rc(ResponseCode::PermissionDenied)
    );
    assert!(service.delete_key(&blob, true, Ok(())).is_ok());
    assert_eq!(
        service
            .delete_key(&blob, true, Err(ErrorCode::InvalidKeyBlob))
            .unwrap_err(),
        Error::Km(ErrorCode::InvalidKeyBlob)
    );
}

/// The storage-key conversion retries exactly once after an explicit
/// upgrade when the engine demands one.
#[test]
fn convert_storage_key_retries_once_after_upgrade() {
    let service = service();
    let blob = KeyDescriptor { domain: Domain::Blob, nspace: 0, alias: None, blob: Some(vec![1]) };
    let resp = service
        .convert_storage_key_to_ephemeral(
            &blob,
            true,
            Err(ErrorCode::KeyRequiresUpgrade),
            Ok(vec![2, 2]),
            Ok(vec![3, 3]),
        )
        .unwrap();
    assert_eq!(resp.ephemeral_key, vec![3, 3]);
    assert_eq!(resp.upgraded_blob.unwrap(), vec![2, 2]);

    let direct = service
        .convert_storage_key_to_ephemeral(
            &blob,
            true,
            Ok(vec![4]),
            Err(ErrorCode::InvalidArgument),
            Err(ErrorCode::InvalidArgument),
        )
        .unwrap();
    assert_eq!(direct.ephemeral_key, vec![4]);
    assert!(direct.upgraded_blob.is_none());
}

#[test]
fn purpose_extraction_and_stripping() {
    let params = vec![
        KeyParameter { tag: Tag::KeySize, value: KeyParameterValue::Integer(256) },
        KeyParameter {
            tag: Tag::Purpose,
            value: KeyParameterValue::KeyPurpose(KeyPurpose::Encrypt),
        },
        KeyParameter {
            tag: Tag::Purpose,
            value: KeyParameterValue::KeyPurpose(KeyPurpose::Decrypt),
        },
    ];
    assert_eq!(operation_purpose(&params).unwrap(), KeyPurpose::Encrypt);
    let stripped = strip_purpose_params(&params);
    assert_eq!(stripped.len(), 1);
    assert_eq!(stripped[0].tag, Tag::KeySize);
    let no_purpose: Vec<KeyParameter> = vec![];
    assert_eq!(
        operation_purpose(&no_purpose).unwrap_err(),
        Error::Km(ErrorCode::InvalidArgument)
    );
}

#[test]
fn certificate_chain_unification() {
    let chain = vec![
        Certificate { encoded_certificate: vec![1, 1] },
        Certificate { encoded_certificate: vec![2] },
        Certificate { encoded_certificate: vec![3, 3] },
    ];
    let (leaf, rest) = unify_certificate_chain(chain);
    assert_eq!(leaf.unwrap(), vec![1, 1]);
    assert_eq!(rest.unwrap(), vec![2, 3, 3]);

    let single = vec![Certificate { encoded_certificate: vec![9] }];
    let (leaf, rest) = unify_certificate_chain(single);
    assert_eq!(leaf.unwrap(), vec![9]);
    assert!(rest.is_none());

    let (leaf, rest) = unify_certificate_chain(vec![]);
    assert!(leaf.is_none());
    assert!(rest.is_none());
}

#[test]
fn policy_checks() {
    let policy = PolicySet::new(vec![PolicyRule {
        source: "u:r:system_server:s0".to_owned(),
        target: "u:object_r:keystore:s0".to_owned(),
        tclass: "keystore2_key".to_owned(),
        perm: "use".to_owned(),
    }]);
    let sctx = Context::new("u:r:system_server:s0").unwrap();
    let tctx = Context::new("u:object_r:keystore:s0").unwrap();
    assert!(check_access(&policy, &sctx, &tctx, "keystore2_key", "use").is_ok());
    assert!(check_access(&policy, &sctx, &tctx, "keystore2_key", "delete").is_err());
    assert!(check_permission(&policy, &sctx, &tctx, &KeyPerm::Use).is_ok());
    assert!(check_permission(&policy, &sctx, &tctx, &KeyPerm::Rebind).is_err());
    let other = Context::new("u:r:shell:s0").unwrap();
    assert!(check_permission(&policy, &other, &tctx, &KeyPerm::Use).is_err());
}

/// A stored key's blob upgraded during `begin` is owed back to the store
/// under its own row — upgraded blobs are persisted on every code path —
/// while the upgraded bytes are not surfaced to the caller.
#[test]
fn create_operation_persists_upgrade_of_stored_key() {
    let mut service = service();
    let entry = KeyEntry {
        key_id: 21,
        blob_info: Some((vec![0x0b], keystore2::super_key::BlobMetaData::new())),
        parameters: vec![],
    };
    let by_id = KeyDescriptor { domain: Domain::KeyId, nspace: 21, alias: None, blob: None };
    let cenv = CreateOperationEnv {
        caller_uid: 1,
        use_granted: true,
        req_forced_op_granted: false,
        load_entry: Ok(entry),
        super_key: None,
        auth_token: Ok(None),
        begin_first: vec![Err(ErrorCode::KeyRequiresUpgrade)],
        upgrade: Ok(vec![0xee, 0xee]),
        persist: Ok(()),
        begin_second: vec![ok_begin(2)],
        reencrypt_store: Ok(()),
        created_at: 0,
        audit_descriptor: None,
    };
    let purpose_params = vec![KeyParameter {
        tag: Tag::Purpose,
        value: KeyParameterValue::KeyPurpose(KeyPurpose::Encrypt),
    }];
    let run = service.create_operation(&by_id, &purpose_params, false, cenv);
    let resp = run.result.unwrap();
    assert!(resp.upgraded_blob.is_none());
    let persist = run.persist.unwrap();
    assert_eq!(persist.key_id, 21);
    assert_eq!(persist.blob, vec![0xee, 0xee]);
}

/// Wrapping-key rotation: a blob super-encrypted under an old key
/// generation is re-wrapped with the current key on its next use, even
/// though no engine upgrade happened.
#[test]
fn rotation_forces_reencrypt_without_upgrade() {
    let mut service = service();
    let old_super_key = SuperKey::new(ZVec::from_bytes(&[7u8; 32]), 1).unwrap();
    let (wrapped, meta) = old_super_key.wrap_key_for_storage(&[0x5e, 0xc7]).unwrap();
    let mut meta = meta;
    meta.add_km_uuid(Uuid { value: 1 });
    // The user's super key has been rotated to generation 2 since.
    let rotated = SuperKey::new(ZVec::from_bytes(&[7u8; 32]), 2).unwrap();
    let entry = KeyEntry { key_id: 30, blob_info: Some((wrapped, meta)), parameters: vec![] };
    let by_id = KeyDescriptor { domain: Domain::KeyId, nspace: 30, alias: None, blob: None };
    let cenv = CreateOperationEnv {
        caller_uid: 1,
        use_granted: true,
        req_forced_op_granted: false,
        load_entry: Ok(entry),
        super_key: Some(rotated),
        auth_token: Ok(None),
        begin_first: vec![ok_begin(3)],
        upgrade: Err(Error::Rc(ResponseCode::SystemError)),
        persist: Ok(()),
        begin_second: vec![],
        reencrypt_store: Ok(()),
        created_at: 0,
        audit_descriptor: None,
    };
    let purpose_params = vec![KeyParameter {
        tag: Tag::Purpose,
        value: KeyParameterValue::KeyPurpose(KeyPurpose::Decrypt),
    }];
    let run = service.create_operation(&by_id, &purpose_params, false, cenv);
    assert!(run.result.is_ok());
    // The re-wrapped blob is owed back to the store, decryptable with the
    // rotated key.
    let persist = run.persist.unwrap();
    assert_eq!(persist.key_id, 30);
    let recovered = unwrap_key_if_required(
        &Some(SuperKey::new(ZVec::from_bytes(&[7u8; 32]), 2).unwrap()),
        &persist.blob_metadata,
        &persist.blob,
    )
    .unwrap();
    assert_eq!(recovered.as_slice(), &[0x5e, 0xc7]);
}

/// A caller-managed raw blob is returned inside its descriptor and nothing
/// reaches the store.
#[test]
fn store_new_key_raw_blob_is_not_stored() {
    let service = service();
    let blob_key = KeyDescriptor { domain: Domain::Blob, nspace: 0, alias: None, blob: None };
    let creation = KeyCreationResult {
        key_blob: vec![1, 2, 3],
        key_characteristics: vec![],
        certificate_chain: vec![Certificate { encoded_certificate: vec![9] }],
    };
    let (md, rec) = service
        .store_new_key(
            blob_key,
            creation,
            0,
            StorageWrapping::Plain,
            50,
            Err(Error::Rc(ResponseCode::SystemError)),
        )
        .unwrap();
    assert!(rec.is_none());
    assert_eq!(md.key.domain, Domain::Blob);
    assert_eq!(md.key.blob.unwrap(), vec![1, 2, 3]);
    assert_eq!(md.certificate.unwrap(), vec![9]);
    assert!(md.certificate_chain.is_none());
    assert_eq!(md.modification_time_ms, 50);
    // The owning user is recorded as a software-enforced parameter.
    let last = md.authorizations.last().unwrap();
    assert_eq!(last.param.tag, Tag::UserId);
    assert_eq!(last.security_level, SecurityLevel::Software);
}

/// A user-generated attestation key that needs an upgrade during generation
/// comes back as a persistence request under the attestation key's own row.
#[test]
fn generate_key_persists_upgraded_attestation_key() {
    let service = service();
    let dir = directory();
    let creation = KeyCreationResult {
        key_blob: vec![1],
        key_characteristics: vec![],
        certificate_chain: vec![],
    };
    let env = GenerateKeyEnv {
        caller_uid: 10_100,
        rebind_granted: true,
        attest_key_info: Some(keystore2::lifecycle::AttestationKeyInfo::UserGenerated {
            key_id: 500,
            blob: vec![0xa7, 0xa7],
            issuer_subject: vec![0x30],
        }),
        required: required_env(),
        generate: EngineUpgradeEvents {
            first: Err(ErrorCode::KeyRequiresUpgrade),
            upgrade: Ok(vec![0xa8, 0xa8]),
            persist: Ok(()),
            second: Ok(creation),
        },
        processed_certificate_chain: None,
        wrapping: StorageWrapping::Plain,
        dir: &dir,
        creation_date_ms: 9,
        store_key_id: Ok(77),
        reencrypt_store: Ok(()),
    };
    let key = KeyDescriptor {
        domain: Domain::App,
        nspace: 0,
        alias: Some("attested".to_owned()),
        blob: None,
    };
    let (md, _rec, attest_persist, attest_request) =
        service.generate_key(&key, &vec![], env).unwrap();
    assert_eq!(md.key.nspace, 77);
    let persist = attest_persist.unwrap();
    assert_eq!(persist.key_id, 500);
    assert_eq!(persist.blob, vec![0xa8, 0xa8]);
    // The engine request carried the upgraded attestation blob and the
    // issuer.
    let request = attest_request.unwrap();
    assert_eq!(request.key_blob, vec![0xa8, 0xa8]);
    assert_eq!(request.issuer_subject, vec![0x30]);
}

/// With a remotely provisioned attestation key and no certificate
/// post-processing, the provisioned chain is appended to the engine's
/// chain as one concatenated entry.
#[test]
fn generate_key_appends_provisioned_certificates() {
    let mut dir = directory();
    dir.rpc_default_declared = true;
    let mut devices = DevicesMap::new();
    let (service, _) = KeystoreSecurityLevel::new_native_binder(
        SecurityLevel::TrustedEnvironment,
        &mut devices,
        &dir,
    )
    .unwrap();
    let creation = KeyCreationResult {
        key_blob: vec![1],
        key_characteristics: vec![],
        certificate_chain: vec![Certificate { encoded_certificate: vec![0x1f] }],
    };
    let env = GenerateKeyEnv {
        caller_uid: 10_100,
        rebind_granted: true,
        attest_key_info: Some(keystore2::lifecycle::AttestationKeyInfo::RkpdProvisioned {
            attestation_key_blob: vec![0xbb],
            issuer_subject: vec![0x31],
            attestation_certs: vec![0xc0, 0xc1],
        }),
        required: required_env(),
        generate: plain_events(creation),
        processed_certificate_chain: None,
        wrapping: StorageWrapping::Plain,
        dir: &dir,
        creation_date_ms: 9,
        store_key_id: Ok(78),
        reencrypt_store: Ok(()),
    };
    let key = KeyDescriptor {
        domain: Domain::App,
        nspace: 0,
        alias: Some("rkpd".to_owned()),
        blob: None,
    };
    let (md, _rec, _, attest_request) = service.generate_key(&key, &vec![], env).unwrap();
    // Leaf from the engine; the provisioned chain appended behind it.
    assert_eq!(md.certificate.unwrap(), vec![0x1f]);
    assert_eq!(md.certificate_chain.unwrap(), vec![0xc0, 0xc1]);
    let request = attest_request.unwrap();
    assert_eq!(request.key_blob, vec![0xbb]);
    assert_eq!(request.issuer_subject, vec![0x31]);
}

/// Without a provisioning component declared for the tier, a remotely
/// provisioned attestation request cannot be served.
#[test]
fn generate_key_needs_provisioning_component_for_rkpd() {
    let service = service(); // directory without provisioning components
    let dir = directory();
    let env = GenerateKeyEnv {
        caller_uid: 1,
        rebind_granted: true,
        attest_key_info: Some(keystore2::lifecycle::AttestationKeyInfo::RkpdProvisioned {
            attestation_key_blob: vec![],
            issuer_subject: vec![],
            attestation_certs: vec![],
        }),
        required: required_env(),
        generate: plain_events(KeyCreationResult {
            key_blob: vec![],
            key_characteristics: vec![],
            certificate_chain: vec![],
        }),
        processed_certificate_chain: None,
        wrapping: StorageWrapping::Plain,
        dir: &dir,
        creation_date_ms: 0,
        store_key_id: Ok(1),
        reencrypt_store: Ok(()),
    };
    let key = KeyDescriptor {
        domain: Domain::App,
        nspace: 0,
        alias: Some("rkpd".to_owned()),
        blob: None,
    };
    let r = service.generate_key(&key, &vec![], env);
    assert_eq!(r.unwrap_err(), Error::Km(ErrorCode::HardwareTypeUnavailable));
}

/// A context string with an interior NUL cannot travel to the platform and
/// is refused.
#[test]
fn context_refuses_interior_nul() {
    assert!(Context::new("u:r:shell:s0").is_ok());
    assert!(Context::new("u:r:shell\0:s0").is_err());
    assert!(Context::new("\0").is_err());
}

/// Scenario at the service level: `begin` reports slot exhaustion three
/// times while eviction frees one slot each time; the fourth attempt
/// succeeds and exactly three eviction cycles occurred.
#[test]
fn create_operation_retries_under_exhaustion() {
    let mut dir = directory();
    if let Some(engine) = dir.default_engine.as_mut() {
        engine.hw_info.operation_slots = 4;
    }
    let mut devices = DevicesMap::new();
    let (mut service, _) = KeystoreSecurityLevel::new_native_binder(
        SecurityLevel::TrustedEnvironment,
        &mut devices,
        &dir,
    )
    .unwrap();
    let blob_key = KeyDescriptor {
        domain: Domain::Blob,
        nspace: 0,
        alias: None,
        blob: Some(vec![1]),
    };
    let purpose_params = vec![KeyParameter {
        tag: Tag::Purpose,
        value: KeyParameterValue::KeyPurpose(KeyPurpose::Encrypt),
    }];
    let plain_env = |begin_first: Vec<Result<BeginResult, ErrorCode>>| CreateOperationEnv {
        caller_uid: 1,
        use_granted: true,
        req_forced_op_granted: false,
        load_entry: Err(Error::Rc(ResponseCode::KeyNotFound)),
        super_key: None,
        auth_token: Ok(None),
        begin_first,
        upgrade: Err(Error::Rc(ResponseCode::SystemError)),
        persist: Ok(()),
        begin_second: vec![],
        reencrypt_store: Ok(()),
        created_at: 0,
        audit_descriptor: None,
    };
    // Fill the engine's four slots.
    for i in 0..4u64 {
        let run = service.create_operation(&blob_key, &purpose_params, false, plain_env(vec![
            ok_begin(i),
        ]));
        assert!(run.result.is_ok());
    }
    // Exhaustion three times, one eviction each, then success.
    let run = service.create_operation(&blob_key, &purpose_params, false, plain_env(vec![
        Err(ErrorCode::TooManyOperations),
        Err(ErrorCode::TooManyOperations),
        Err(ErrorCode::TooManyOperations),
        ok_begin(9),
    ]));
    let resp = run.result.unwrap();
    assert_eq!(resp.op_id, 9);
    assert_eq!(run.eviction_cycles, 3);
}
