//! Tests of the direct-device wrapper: corruption detection, blob reuse,
//! transparent upgrade and one-shot key use.

use keystore2::device::{DevicesMap, HardwareInfo, NativeEngine, ServiceDirectory};
use keystore2::raw_device::{
    upgrade_keyblob_if_required_with, EngineUpgradeEvents, KeyMintDevice, LookupOrGenerateEnv,
    AID_KEYSTORE,
};
use keystore2::store::KeyEntry;
use keystore2::super_key::BlobMetaData;
use keystore2::types::{
    BeginResult, Domain, Error, ErrorCode, KeyCharacteristics, KeyCreationResult, KeyPurpose,
    ResponseCode, SecurityLevel, Uuid,
};

fn directory(uuid: u64) -> ServiceDirectory {
    ServiceDirectory {
        declared_instances: vec!["default".to_owned()],
        default_engine: Some(NativeEngine {
            interface_version: 3,
            hw_info: HardwareInfo {
                version_number: 0,
                security_level: SecurityLevel::TrustedEnvironment,
                uuid: Uuid { value: uuid },
                timestamp_token_required: false,
                operation_slots: 4,
            },
        }),
        strongbox_engine: None,
        legacy_engine: None,
        clock_instances: vec![],
        secure_clock: None,
        rpc_default_declared: false,
        rpc_strongbox_declared: false,
    }
}

fn device(uuid: u64) -> KeyMintDevice {
    let mut devices = DevicesMap::new();
    let dir = directory(uuid);
    KeyMintDevice::get(&mut devices, &dir, SecurityLevel::TrustedEnvironment).unwrap()
}

fn metadata_for(uuid: u64) -> BlobMetaData {
    let mut m = BlobMetaData::new();
    m.add_km_uuid(Uuid { value: uuid });
    m
}

fn characteristics_ok() -> EngineUpgradeEvents<Vec<KeyCharacteristics>> {
    EngineUpgradeEvents {
        first: Ok(vec![]),
        upgrade: Err(Error::Rc(ResponseCode::SystemError)),
        persist: Ok(()),
        second: Err(ErrorCode::InvalidArgument),
    }
}

fn regeneration_env(
    lookup: Result<KeyEntry, Error>,
    characteristics: EngineUpgradeEvents<Vec<KeyCharacteristics>>,
    valid: bool,
    engine_uuid: u64,
) -> LookupOrGenerateEnv {
    LookupOrGenerateEnv {
        lookup,
        characteristics,
        characteristics_valid: valid,
        generate: Ok(KeyCreationResult {
            key_blob: vec![0xf0, 0x0d],
            key_characteristics: vec![],
            certificate_chain: vec![],
        }),
        creation_date_ms: 77,
        store: Ok(()),
        relookup: Ok(KeyEntry {
            key_id: 13,
            blob_info: Some((vec![0xf0, 0x0d], metadata_for(engine_uuid))),
            parameters: vec![],
        }),
    }
}

/// A current, valid blob is reused unchanged: no regeneration, nothing to
/// persist.
#[test]
fn lookup_reuses_current_blob() {
    let device = device(1);
    assert_eq!(device.version(), 300);
    let entry = KeyEntry {
        key_id: 8,
        blob_info: Some((vec![0xb1, 0x0b], metadata_for(1))),
        parameters: vec![],
    };
    let env = regeneration_env(Ok(entry), characteristics_ok(), true, 1);
    let res = device.lookup_or_generate_key(env).unwrap();
    assert!(!res.regenerated);
    assert_eq!(res.key_id, 8);
    assert_eq!(res.blob, vec![0xb1, 0x0b]);
    assert!(res.new_key.is_none());
    assert!(res.persist.is_none());
}

/// Corruption detection: a blob whose metadata names engine 2 while the
/// tier is served by engine 1 is treated as absent and regenerated; it is
/// never used.
#[test]
fn lookup_regenerates_on_engine_mismatch() {
    let device = device(1);
    let stale = KeyEntry {
        key_id: 8,
        blob_info: Some((vec![0xb1, 0x0b], metadata_for(2))),
        parameters: vec![],
    };
    let env = regeneration_env(Ok(stale), characteristics_ok(), true, 1);
    let res = device.lookup_or_generate_key(env).unwrap();
    assert!(res.regenerated);
    assert_eq!(res.key_id, 13);
    assert_eq!(res.blob, vec![0xf0, 0x0d]);
    let record = res.new_key.unwrap();
    assert_eq!(record.km_uuid, Uuid { value: 1 });
}

/// A blob without metadata naming any engine is equally corrupted.
#[test]
fn lookup_regenerates_on_missing_engine_identity() {
    let device = device(1);
    let stale = KeyEntry {
        key_id: 8,
        blob_info: Some((vec![0xb1, 0x0b], BlobMetaData::new())),
        parameters: vec![],
    };
    let env = regeneration_env(Ok(stale), characteristics_ok(), true, 1);
    let res = device.lookup_or_generate_key(env).unwrap();
    assert!(res.regenerated);
}

/// An absent key is generated.
#[test]
fn lookup_generates_absent_key() {
    let device = device(1);
    let env = regeneration_env(
        Err(Error::Rc(ResponseCode::KeyNotFound)),
        characteristics_ok(),
        true,
        1,
    );
    let res = device.lookup_or_generate_key(env).unwrap();
    assert!(res.regenerated);
    assert_eq!(res.key_id, 13);
}

/// Failed validation replaces the key even when the blob is current.
#[test]
fn lookup_regenerates_on_failed_validation() {
    let device = device(1);
    let entry = KeyEntry {
        key_id: 8,
        blob_info: Some((vec![0xb1, 0x0b], metadata_for(1))),
        parameters: vec![],
    };
    let env = regeneration_env(Ok(entry), characteristics_ok(), false, 1);
    let res = device.lookup_or_generate_key(env).unwrap();
    assert!(res.regenerated);
}

/// An outdated blob format is upgraded transparently and the new blob comes
/// back as a persistence request for the same key row.
#[test]
fn lookup_upgrades_outdated_blob() {
    let device = device(1);
    let entry = KeyEntry {
        key_id: 8,
        blob_info: Some((vec![0xb1, 0x0b], metadata_for(1))),
        parameters: vec![],
    };
    let events = EngineUpgradeEvents {
        first: Err(ErrorCode::KeyRequiresUpgrade),
        upgrade: Ok(vec![0xaa]),
        persist: Ok(()),
        second: Ok(vec![]),
    };
    let env = regeneration_env(Ok(entry), events, true, 1);
    let res = device.lookup_or_generate_key(env).unwrap();
    assert!(!res.regenerated);
    assert_eq!(res.blob, vec![0xaa]);
    let persist = res.persist.unwrap();
    assert_eq!(persist.key_id, 8);
    assert_eq!(persist.blob, vec![0xaa]);
    assert!(res.persisted);
}

#[test]
fn get_or_none_distinguishes_absent_tier() {
    let mut devices = DevicesMap::new();
    let dir = directory(1);
    let r = KeyMintDevice::get_or_none(&mut devices, &dir, SecurityLevel::Strongbox).unwrap();
    assert!(r.is_none());
    let r =
        KeyMintDevice::get_or_none(&mut devices, &dir, SecurityLevel::TrustedEnvironment).unwrap();
    assert!(r.is_some());
}

#[test]
fn internal_descriptor_shape() {
    let d = KeyMintDevice::internal_descriptor("attest_key".to_owned());
    assert_eq!(d.domain, Domain::App);
    assert_eq!(d.nspace, AID_KEYSTORE as i64);
    assert_eq!(d.alias.unwrap(), "attest_key".to_owned());
    assert!(d.blob.is_none());
}

#[test]
fn not_found_maps_to_none() {
    let r = KeyMintDevice::not_found_is_none(Err(Error::Rc(ResponseCode::KeyNotFound))).unwrap();
    assert!(r.is_none());
    let r = KeyMintDevice::not_found_is_none(Err(Error::Km(ErrorCode::InvalidArgument)));
    assert!(r.is_err());
}

#[test]
fn one_step_use_passes_output_through() {
    let device = device(1);
    let begin = EngineUpgradeEvents {
        first: Ok(BeginResult { challenge: 3, operation: Some(5), params: vec![] }),
        upgrade: Err(Error::Rc(ResponseCode::SystemError)),
        persist: Ok(()),
        second: Err(ErrorCode::InvalidArgument),
    };
    let (out, persist) = device
        .use_key_in_one_step(
            9,
            &[1, 2, 3],
            KeyPurpose::Sign,
            &vec![],
            None,
            b"message",
            begin,
            Ok(vec![0xcc]),
        )
        .unwrap();
    assert_eq!(out, vec![0xcc]);
    assert!(persist.is_none());
}

#[test]
fn upgrade_wrapper_returns_new_blob() {
    let events: EngineUpgradeEvents<u32> = EngineUpgradeEvents {
        first: Err(ErrorCode::KeyRequiresUpgrade),
        upgrade: Ok(vec![7, 7]),
        persist: Err(Error::Rc(ResponseCode::SystemError)),
        second: Ok(55),
    };
    let (payload, upgraded, persisted) = upgrade_keyblob_if_required_with(events).unwrap();
    assert_eq!(payload, 55);
    assert_eq!(upgraded.unwrap(), vec![7, 7]);
    assert!(!persisted);
}
