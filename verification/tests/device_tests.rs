//! Tests of engine discovery, version normalisation, adapter selection and
//! the per-tier connection cache.

use keystore2::device::{
    connect_keymint, connect_secureclock, get_keymint_dev_by_uuid, get_keymint_device,
    get_keymint_devices, get_remotely_provisioned_component_name, get_timestamp_service,
    keymint_service_name, AdapterKind, BootState, ClockHandle, DevicesMap, EngineInstance,
    HardwareInfo, LegacyEngine, NativeEngine, RpcComponent, ServiceDirectory,
};
use keystore2::types::{Error, ErrorCode, ResponseCode, SecurityLevel, Uuid};

fn hw(uuid: u64) -> HardwareInfo {
    HardwareInfo {
        version_number: 7777, // implementation-defined garbage, must be overwritten
        security_level: SecurityLevel::TrustedEnvironment,
        uuid: Uuid { value: uuid },
        timestamp_token_required: false,
        operation_slots: 16,
    }
}

fn empty_directory() -> ServiceDirectory {
    ServiceDirectory {
        declared_instances: vec![],
        default_engine: None,
        strongbox_engine: None,
        legacy_engine: None,
        clock_instances: vec![],
        secure_clock: None,
        rpc_default_declared: false,
        rpc_strongbox_declared: false,
    }
}

/// Scenario: the primary tier has a registered native engine reporting
/// interface generation 2 with a known identifier; resolution returns a
/// handle with normalised version 200 and that identifier, without the
/// legacy bridge.
#[test]
fn resolve_primary_native_engine() {
    let mut dir = empty_directory();
    dir.declared_instances = vec!["default".to_owned()];
    dir.default_engine = Some(NativeEngine { interface_version: 2, hw_info: hw(1) });
    // A legacy bridge is present but must not be consulted.
    dir.legacy_engine = Some(LegacyEngine { hw_info: hw(99) });

    let handle = connect_keymint(SecurityLevel::TrustedEnvironment, &dir).unwrap();
    assert_eq!(handle.adapter, AdapterKind::NativeCurrent);
    assert_eq!(handle.hw_info.version_number, 200);
    assert_eq!(handle.hw_info.uuid, Uuid { value: 1 });
    assert_eq!(handle.tier, SecurityLevel::TrustedEnvironment);
}

/// Scenario: the primary tier has no registered native engine; resolution
/// goes through the legacy bridge and returns a handle with the
/// software-emulation adapter active and a normalised version of 100.
#[test]
fn resolve_primary_without_native_engine() {
    let mut dir = empty_directory();
    dir.legacy_engine = Some(LegacyEngine { hw_info: hw(7) });

    let handle = connect_keymint(SecurityLevel::TrustedEnvironment, &dir).unwrap();
    assert_eq!(handle.adapter, AdapterKind::LegacyEmulated);
    assert_eq!(handle.hw_info.version_number, 100);
    assert_eq!(handle.hw_info.uuid, Uuid { value: 7 });
}

#[test]
fn first_generation_native_engine_is_emulated() {
    let mut dir = empty_directory();
    dir.declared_instances = vec!["default".to_owned()];
    dir.default_engine = Some(NativeEngine { interface_version: 1, hw_info: hw(3) });
    let handle = connect_keymint(SecurityLevel::TrustedEnvironment, &dir).unwrap();
    assert_eq!(handle.adapter, AdapterKind::NativeV1Emulated);
    assert_eq!(handle.hw_info.version_number, 100);
}

#[test]
fn unknown_interface_generation_is_unavailable() {
    let mut dir = empty_directory();
    dir.declared_instances = vec!["default".to_owned()];
    dir.default_engine = Some(NativeEngine { interface_version: 9, hw_info: hw(3) });
    let e = connect_keymint(SecurityLevel::TrustedEnvironment, &dir).unwrap_err();
    assert_eq!(e, Error::Km(ErrorCode::HardwareTypeUnavailable));
}

#[test]
fn absent_tier_is_distinguishable() {
    let dir = empty_directory();
    // No native instance and no bridge: the tier is legitimately absent.
    let e = connect_keymint(SecurityLevel::Strongbox, &dir).unwrap_err();
    assert_eq!(e, Error::Km(ErrorCode::HardwareTypeUnavailable));
    // The software tier cannot be served by discovery at all.
    let e = connect_keymint(SecurityLevel::Software, &dir).unwrap_err();
    assert_eq!(e, Error::Km(ErrorCode::HardwareTypeUnavailable));
}

#[test]
fn declared_but_unreachable_engine_is_a_transport_failure() {
    let mut dir = empty_directory();
    dir.declared_instances = vec!["default".to_owned()];
    let e = connect_keymint(SecurityLevel::TrustedEnvironment, &dir).unwrap_err();
    assert_eq!(e, Error::Rc(ResponseCode::SystemError));
}

#[test]
fn service_name_selection() {
    let instances = vec!["default".to_owned(), "strongbox".to_owned()];
    assert_eq!(
        keymint_service_name(SecurityLevel::TrustedEnvironment, &instances).unwrap(),
        Some(EngineInstance::Default)
    );
    assert_eq!(
        keymint_service_name(SecurityLevel::Strongbox, &instances).unwrap(),
        Some(EngineInstance::Strongbox)
    );
    let none: Vec<String> = vec!["other".to_owned()];
    assert_eq!(
        keymint_service_name(SecurityLevel::TrustedEnvironment, &none).unwrap(),
        None
    );
    assert!(keymint_service_name(SecurityLevel::Software, &none).is_err());
}

/// Resolving a tier twice returns the identical handle: the second call is
/// served from the cache even when the platform directory has changed in
/// the meantime.
#[test]
fn resolution_is_idempotent() {
    let mut devices = DevicesMap::new();
    let mut dir = empty_directory();
    dir.declared_instances = vec!["default".to_owned()];
    dir.default_engine = Some(NativeEngine { interface_version: 2, hw_info: hw(1) });

    let (h1, u1) =
        get_keymint_device(&mut devices, &dir, SecurityLevel::TrustedEnvironment).unwrap();
    // The platform now reports a different engine; the cache must win.
    dir.default_engine = Some(NativeEngine { interface_version: 3, hw_info: hw(2) });
    let (h2, u2) =
        get_keymint_device(&mut devices, &dir, SecurityLevel::TrustedEnvironment).unwrap();
    assert_eq!(u1, u2);
    assert_eq!(h1, h2);
    assert_eq!(get_keymint_devices(&devices).len(), 1);

    let by_uuid = get_keymint_dev_by_uuid(&devices, u1).unwrap();
    assert_eq!(by_uuid, h1);
    assert!(get_keymint_dev_by_uuid(&devices, Uuid { value: 999 }).is_err());
}

#[test]
fn secure_clock_connection_and_cache() {
    let mut dir = empty_directory();
    assert_eq!(
        connect_secureclock(&dir).unwrap_err(),
        Error::Km(ErrorCode::HardwareTypeUnavailable)
    );
    dir.clock_instances = vec!["default".to_owned()];
    assert_eq!(
        connect_secureclock(&dir).unwrap_err(),
        Error::Rc(ResponseCode::SystemError)
    );
    dir.secure_clock = Some(ClockHandle { id: 5 });
    assert_eq!(connect_secureclock(&dir).unwrap(), ClockHandle { id: 5 });

    let mut cache = None;
    assert_eq!(get_timestamp_service(&mut cache, &dir).unwrap(), ClockHandle { id: 5 });
    // The cache serves later calls even when the directory changes.
    dir.secure_clock = Some(ClockHandle { id: 9 });
    assert_eq!(get_timestamp_service(&mut cache, &dir).unwrap(), ClockHandle { id: 5 });
}

#[test]
fn remotely_provisioned_component_lookup() {
    let mut dir = empty_directory();
    assert!(get_remotely_provisioned_component_name(SecurityLevel::TrustedEnvironment, &dir)
        .is_err());
    dir.rpc_default_declared = true;
    assert_eq!(
        get_remotely_provisioned_component_name(SecurityLevel::TrustedEnvironment, &dir).unwrap(),
        RpcComponent::Default
    );
    assert!(get_remotely_provisioned_component_name(SecurityLevel::Strongbox, &dir).is_err());
    dir.rpc_strongbox_declared = true;
    assert_eq!(
        get_remotely_provisioned_component_name(SecurityLevel::Strongbox, &dir).unwrap(),
        RpcComponent::Strongbox
    );
}

#[test]
fn boot_state_transitions() {
    let mut boot = BootState::new();
    assert!(!boot.boot_completed());
    boot.set_boot_completed();
    assert!(boot.boot_completed());
}
