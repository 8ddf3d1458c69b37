//! Engine discovery and the per-tier connection registry.
//!
//! The platform's service directory is handed in as data: which engine
//! instances are declared, what each connected instance reports, and whether
//! a legacy compatibility bridge can serve.  Discovery selects a runtime
//! adapter from the engine's interface version, normalises the version so
//! that later comparisons are monotonic across hardware, software and legacy
//! engines, and caches one handle per security tier for the process
//! lifetime.

use vstd::prelude::*;

use crate::types::{Error, ErrorCode, SecurityLevel, Uuid};

verus! {

/// Normalised version of the first engine interface generation.
pub const ENGINE_VERSION_1: i32 = 100;

/// Normalised version of the second engine interface generation.
pub const ENGINE_VERSION_2: i32 = 200;

/// Normalised version of the third engine interface generation.
pub const ENGINE_VERSION_3: i32 = 300;

/// Normalised version of the fourth engine interface generation.
pub const ENGINE_VERSION_4: i32 = 400;

/// What an engine reports about itself when queried for hardware info.
#[derive(Clone, Copy, Debug, PartialEq, Eq, Structural)]
pub struct HardwareInfo {
    /// Self-reported version; overwritten with the normalised version at
    /// resolution time.
    pub version_number: i32,
    /// The security level the engine actually implements.
    pub security_level: SecurityLevel,
    /// Identifier of this engine instance.
    pub uuid: Uuid,
    /// Whether operations against this engine need a timestamp token.
    pub timestamp_token_required: bool,
    /// How many concurrent operation slots the engine grants.
    pub operation_slots: usize,
}

/// The runtime adapter wrapped around a connection, selected once at
/// resolution time from the normalised version.
#[derive(Clone, Copy, Debug, PartialEq, Eq, Structural)]
pub enum AdapterKind {
    /// A current native engine, used as-is.
    NativeCurrent,
    /// A first-generation native engine behind the software-emulation
    /// adapter that supplements missing operations.
    NativeV1Emulated,
    /// A legacy engine behind the compatibility bridge and the
    /// software-emulation adapter.
    LegacyEmulated,
}

/// A resolved, cached connection to one engine: the registry hands these
/// out.  The version in `hw_info` is always the normalised one.
#[derive(Clone, Copy, Debug, PartialEq, Eq, Structural)]
pub struct EngineHandle {
    pub tier: SecurityLevel,
    pub adapter: AdapterKind,
    pub hw_info: HardwareInfo,
}

/// Connection data of a registered native engine instance.
#[derive(Clone, Copy, Debug, PartialEq, Eq, Structural)]
pub struct NativeEngine {
    /// The interface generation the engine implements (1, 2, ...).
    pub interface_version: i32,
    /// What the engine reports; its version field is implementation-defined
    /// and replaced by the normalised version.
    pub hw_info: HardwareInfo,
}

/// Connection data of the legacy compatibility bridge.
#[derive(Clone, Copy, Debug, PartialEq, Eq, Structural)]
pub struct LegacyEngine {
    pub hw_info: HardwareInfo,
}

/// Snapshot of the platform service directory: what discovery can see.
#[derive(Debug)]
pub struct ServiceDirectory {
    /// Instance names declared for the engine interface.
    pub declared_instances: Vec<String>,
    /// The connected "default" instance, when reachable.
    pub default_engine: Option<NativeEngine>,
    /// The connected "strongbox" instance, when reachable.
    pub strongbox_engine: Option<NativeEngine>,
    /// The legacy bridge, when it can serve the requested tier.
    pub legacy_engine: Option<LegacyEngine>,
    /// Instance names declared for the secure clock interface.
    pub clock_instances: Vec<String>,
    /// The connected secure clock, native or via the bridge.
    pub secure_clock: Option<ClockHandle>,
    /// Whether a remote-provisioning component is declared per tier.
    pub rpc_default_declared: bool,
    pub rpc_strongbox_declared: bool,
}

/// Mathematical view of the service directory.
pub struct ServiceDirectoryView {
    pub declared_instances: Seq<Seq<char>>,
    pub default_engine: Option<NativeEngine>,
    pub strongbox_engine: Option<NativeEngine>,
    pub legacy_engine: Option<LegacyEngine>,
    pub clock_instances: Seq<Seq<char>>,
    pub secure_clock: Option<ClockHandle>,
    pub rpc_default_declared: bool,
    pub rpc_strongbox_declared: bool,
}

impl View for ServiceDirectory {
    type V = ServiceDirectoryView;

    open spec fn view(&self) -> ServiceDirectoryView {
        ServiceDirectoryView {
            declared_instances: self.declared_instances@.map_values(|s: String| s@),
            default_engine: self.default_engine,
            strongbox_engine: self.strongbox_engine,
            legacy_engine: self.legacy_engine,
            clock_instances: self.clock_instances@.map_values(|s: String| s@),
            secure_clock: self.secure_clock,
            rpc_default_declared: self.rpc_default_declared,
            rpc_strongbox_declared: self.rpc_strongbox_declared,
        }
    }
}

/// A connected secure clock session.
#[derive(Clone, Copy, Debug, PartialEq, Eq, Structural)]
pub struct ClockHandle {
    pub id: u32,
}

/// Whether `name` occurs in a list of declared instance names.
pub open spec fn spec_declares(instances: Seq<Seq<char>>, name: Seq<char>) -> bool {
    exists|i: int| 0 <= i < instances.len() && instances[i] == name
}

/// Decides whether `needle` occurs in the list of instance names.
fn contains_instance(instances: &Vec<String>, needle: &str) -> (r: bool)
    ensures
        r == spec_declares(instances@.map_values(|s: String| s@), needle@),
{
    let ghost iv = instances@.map_values(|s: String| s@);
    let owned = needle.to_owned();
    let mut i: usize = 0;
    while i < instances.len()
        invariant
            i <= instances.len(),
            owned@ == needle@,
            iv == instances@.map_values(|s: String| s@),
            forall|k: int| 0 <= k < i ==> iv[k] != needle@,
        decreases instances.len() - i,
    {
        if instances[i] == owned {
            assert(iv[i as int] == needle@);
            return true;
        }
        i += 1;
    }
    false
}

/// The instance name that serves a tier.
#[derive(Clone, Copy, Debug, PartialEq, Eq, Structural)]
pub enum EngineInstance {
    /// The "default" instance, serving the trusted-environment tier.
    Default,
    /// The "strongbox" instance, serving the strongbox tier.
    Strongbox,
}

/// The instance name that discovery looks for at a tier, when the tier can
/// be served by a native engine and one is declared.
pub open spec fn spec_keymint_service_name(
    security_level: SecurityLevel,
    instances: Seq<Seq<char>>,
) -> Result<Option<EngineInstance>, Error> {
    match security_level {
        SecurityLevel::TrustedEnvironment => {
            if spec_declares(instances, "default"@) {
                Ok(Some(EngineInstance::Default))
            } else {
                Ok(None)
            }
        },
        SecurityLevel::Strongbox => {
            if spec_declares(instances, "strongbox"@) {
                Ok(Some(EngineInstance::Strongbox))
            } else {
                Ok(None)
            }
        },
        _ => Err(Error::Km(ErrorCode::HardwareTypeUnavailable)),
    }
}

/// Determines which declared engine instance serves the requested tier:
/// `None` when the tier could be served but no native instance is declared,
/// an error when the tier cannot be served by a native engine at all.
pub fn keymint_service_name(security_level: SecurityLevel, instances: &Vec<String>) -> (r: Result<
    Option<EngineInstance>,
    Error,
>)
    ensures
        r == spec_keymint_service_name(
            security_level,
            instances@.map_values(|s: String| s@),
        ),
{
    match security_level {
        SecurityLevel::TrustedEnvironment => {
            if contains_instance(instances, "default") {
                Ok(Some(EngineInstance::Default))
            } else {
                Ok(None)
            }
        },
        SecurityLevel::Strongbox => {
            if contains_instance(instances, "strongbox") {
                Ok(Some(EngineInstance::Strongbox))
            } else {
                Ok(None)
            }
        },
        _ => Err(Error::Km(ErrorCode::HardwareTypeUnavailable)),
    }
}

/// The handle produced for a connection, with the normalised version
/// overwriting what the engine reported.
pub open spec fn spec_handle(
    tier: SecurityLevel,
    adapter: AdapterKind,
    hw: HardwareInfo,
    version: i32,
) -> EngineHandle {
    EngineHandle {
        tier,
        adapter,
        hw_info: HardwareInfo {
            version_number: version,
            security_level: hw.security_level,
            uuid: hw.uuid,
            timestamp_token_required: hw.timestamp_token_required,
            operation_slots: hw.operation_slots,
        },
    }
}

/// What discovery yields for a tier, given the directory snapshot.
///
/// A declared native instance is connected directly; its interface
/// generation `v` is normalised to `v * 100`, and generation 1 engines get
/// the software-emulation adapter.  Without a native instance the legacy
/// bridge serves with the emulation adapter and normalised version
/// `ENGINE_VERSION_1`, so that version comparisons stay monotonic.  A tier
/// that is legitimately absent yields `HardwareTypeUnavailable`, distinct
/// from a connection failure.
pub open spec fn spec_connect_keymint(
    security_level: SecurityLevel,
    dir: ServiceDirectoryView,
) -> Result<EngineHandle, Error> {
    match spec_keymint_service_name(security_level, dir.declared_instances) {
        Err(e) => Err(e),
        Ok(Some(instance)) => {
            let engine = if instance == EngineInstance::Default {
                dir.default_engine
            } else {
                dir.strongbox_engine
            };
            match engine {
                None => Err(Error::Rc(crate::types::ResponseCode::SystemError)),
                Some(e) => {
                    if e.interface_version == 1 {
                        Ok(
                            spec_handle(
                                security_level,
                                AdapterKind::NativeV1Emulated,
                                e.hw_info,
                                ENGINE_VERSION_1,
                            ),
                        )
                    } else if e.interface_version == 2 || e.interface_version == 3
                        || e.interface_version == 4 {
                        Ok(
                            spec_handle(
                                security_level,
                                AdapterKind::NativeCurrent,
                                e.hw_info,
                                (e.interface_version * 100) as i32,
                            ),
                        )
                    } else {
                        Err(Error::Km(ErrorCode::HardwareTypeUnavailable))
                    }
                },
            }
        },
        Ok(None) => {
            match dir.legacy_engine {
                None => Err(Error::Km(ErrorCode::HardwareTypeUnavailable)),
                Some(le) => Ok(
                    spec_handle(
                        security_level,
                        AdapterKind::LegacyEmulated,
                        le.hw_info,
                        ENGINE_VERSION_1,
                    ),
                ),
            }
        },
    }
}

/// Connects to an engine for the given tier: native when one is declared,
/// else through the legacy bridge.
pub fn connect_keymint(security_level: SecurityLevel, dir: &ServiceDirectory) -> (r: Result<
    EngineHandle,
    Error,
>)
    ensures
        r == spec_connect_keymint(security_level, dir@),
{
    let instance = match keymint_service_name(security_level, &dir.declared_instances) {
        Ok(i) => i,
        Err(e) => {
            return Err(e);
        },
    };
    match instance {
        Some(instance) => {
            let engine = if instance == EngineInstance::Default {
                &dir.default_engine
            } else {
                &dir.strongbox_engine
            };
            match engine {
                None => Err(Error::Rc(crate::types::ResponseCode::SystemError)),
                Some(e) => {
                    if e.interface_version == 1 {
                        Ok(
                            EngineHandle {
                                tier: security_level,
                                adapter: AdapterKind::NativeV1Emulated,
                                hw_info: HardwareInfo {
                                    version_number: ENGINE_VERSION_1,
                                    ..e.hw_info
                                },
                            },
                        )
                    } else if e.interface_version == 2 || e.interface_version == 3
                        || e.interface_version == 4 {
                        Ok(
                            EngineHandle {
                                tier: security_level,
                                adapter: AdapterKind::NativeCurrent,
                                hw_info: HardwareInfo {
                                    version_number: e.interface_version * 100,
                                    ..e.hw_info
                                },
                            },
                        )
                    } else {
                        Err(Error::Km(ErrorCode::HardwareTypeUnavailable))
                    }
                },
            }
        },
        None => {
            match &dir.legacy_engine {
                None => Err(Error::Km(ErrorCode::HardwareTypeUnavailable)),
                Some(le) => Ok(
                    EngineHandle {
                        tier: security_level,
                        adapter: AdapterKind::LegacyEmulated,
                        hw_info: HardwareInfo { version_number: ENGINE_VERSION_1, ..le.hw_info },
                    },
                ),
            }
        },
    }
}

/// One cached connection: the tier it was requested for, the identifier it
/// is filed under, and the handle.
#[derive(Clone, Copy, Debug, PartialEq, Eq, Structural)]
pub struct DeviceEntry {
    pub sec_level: SecurityLevel,
    pub uuid: Uuid,
    pub handle: EngineHandle,
}

/// The first cached entry for a tier.
pub open spec fn spec_find_sec_level(entries: Seq<DeviceEntry>, s: SecurityLevel) -> Option<
    DeviceEntry,
>
    decreases entries.len(),
{
    if entries.len() == 0 {
        None
    } else if entries[0].sec_level == s {
        Some(entries[0])
    } else {
        spec_find_sec_level(entries.drop_first(), s)
    }
}

/// The first cached entry filed under an identifier.
pub open spec fn spec_find_uuid(entries: Seq<DeviceEntry>, u: Uuid) -> Option<DeviceEntry>
    decreases entries.len(),
{
    if entries.len() == 0 {
        None
    } else if entries[0].uuid == u {
        Some(entries[0])
    } else {
        spec_find_uuid(entries.drop_first(), u)
    }
}

/// The per-process cache of engine connections, at most one per tier.
///
/// The requested tier and the security level the engine actually implements
/// may differ, so each entry is also filed under the engine's identifier:
/// there can be no confusion as to which engine a blob belongs to.
#[derive(Debug)]
pub struct DevicesMap {
    entries: Vec<DeviceEntry>,
}

impl DevicesMap {
    /// The cached entries.
    pub closed spec fn spec_entries(&self) -> Seq<DeviceEntry> {
        self.entries@
    }

    /// Each tier is cached at most once.
    pub open spec fn wf(&self) -> bool {
        forall|i: int, j: int|
            0 <= i < j < self.spec_entries().len() ==> #[trigger] self.spec_entries()[i].sec_level
                != #[trigger] self.spec_entries()[j].sec_level
    }

    /// An empty cache.
    pub fn new() -> (r: DevicesMap)
        ensures
            r.spec_entries() == Seq::<DeviceEntry>::empty(),
            r.wf(),
    {
        DevicesMap { entries: Vec::new() }
    }

    /// Looks up the cached connection for a tier.
    pub fn dev_by_sec_level(&self, sec_level: SecurityLevel) -> (r: Option<(EngineHandle, Uuid)>)
        ensures
            match spec_find_sec_level(self.spec_entries(), sec_level) {
                Some(e) => r == Some((e.handle, e.uuid)),
                None => r is None,
            },
    {
        proof {
            assert(self.spec_entries().skip(0) =~= self.spec_entries());
        }
        let mut i: usize = 0;
        while i < self.entries.len()
            invariant
                i <= self.entries.len(),
                spec_find_sec_level(self.spec_entries(), sec_level) == spec_find_sec_level(
                    self.spec_entries().skip(i as int),
                    sec_level,
                ),
            decreases self.entries.len() - i,
        {
            proof {
                assert(self.spec_entries().skip(i as int)[0] == self.spec_entries()[i as int]);
                assert(self.spec_entries().skip(i as int).drop_first() =~= self.spec_entries().skip(
                    i + 1,
                ));
            }
            if self.entries[i].sec_level == sec_level {
                let e = self.entries[i];
                return Some((e.handle, e.uuid));
            }
            i += 1;
        }
        proof {
            assert(self.spec_entries().skip(self.entries@.len() as int) =~= Seq::<
                DeviceEntry,
            >::empty());
        }
        None
    }

    /// Looks up the cached connection filed under an engine identifier.
    pub fn dev_by_uuid(&self, uuid: Uuid) -> (r: Option<EngineHandle>)
        ensures
            match spec_find_uuid(self.spec_entries(), uuid) {
                Some(e) => r == Some(e.handle),
                None => r is None,
            },
    {
        proof {
            assert(self.spec_entries().skip(0) =~= self.spec_entries());
        }
        let mut i: usize = 0;
        while i < self.entries.len()
            invariant
                i <= self.entries.len(),
                spec_find_uuid(self.spec_entries(), uuid) == spec_find_uuid(
                    self.spec_entries().skip(i as int),
                    uuid,
                ),
            decreases self.entries.len() - i,
        {
            proof {
                assert(self.spec_entries().skip(i as int)[0] == self.spec_entries()[i as int]);
                assert(self.spec_entries().skip(i as int).drop_first() =~= self.spec_entries().skip(
                    i + 1,
                ));
            }
            if self.entries[i].uuid == uuid {
                return Some(self.entries[i].handle);
            }
            i += 1;
        }
        proof {
            assert(self.spec_entries().skip(self.entries@.len() as int) =~= Seq::<
                DeviceEntry,
            >::empty());
        }
        None
    }

    /// All cached handles.
    pub fn devices(&self) -> (r: Vec<EngineHandle>)
        ensures
            r@.len() == self.spec_entries().len(),
            forall|i: int|
                0 <= i < r@.len() ==> r@[i] == #[trigger] self.spec_entries()[i].handle,
    {
        let mut r: Vec<EngineHandle> = Vec::new();
        let mut i: usize = 0;
        while i < self.entries.len()
            invariant
                i <= self.entries.len(),
                r@.len() == i,
                forall|k: int| 0 <= k < i ==> r@[k] == #[trigger] self.spec_entries()[k].handle,
            decreases self.entries.len() - i,
        {
            r.push(self.entries[i].handle);
            i += 1;
        }
        r
    }

    /// Caches a fresh connection for a tier that has none yet.
    pub fn insert(&mut self, sec_level: SecurityLevel, handle: EngineHandle, uuid: Uuid)
        requires
            old(self).wf(),
            spec_find_sec_level(old(self).spec_entries(), sec_level) is None,
        ensures
            final(self).wf(),
            final(self).spec_entries() == old(self).spec_entries().push(
                (DeviceEntry { sec_level, uuid, handle }),
            ),
            spec_find_sec_level(final(self).spec_entries(), sec_level) == Some(
                (DeviceEntry { sec_level, uuid, handle }),
            ),
    {
        let entry = DeviceEntry { sec_level, uuid, handle };
        proof {
            lemma_find_sec_level_push(self.spec_entries(), entry, sec_level);
            lemma_absent_means_no_match(self.spec_entries(), sec_level);
        }
        self.entries.push(entry);
    }
}

/// A tier that the search does not find occurs in no entry.
proof fn lemma_absent_means_no_match(entries: Seq<DeviceEntry>, s: SecurityLevel)
    requires
        spec_find_sec_level(entries, s) is None,
    ensures
        forall|i: int| 0 <= i < entries.len() ==> #[trigger] entries[i].sec_level != s,
    decreases entries.len(),
{
    if entries.len() > 0 {
        lemma_absent_means_no_match(entries.drop_first(), s);
        assert forall|i: int| 0 <= i < entries.len() implies #[trigger] entries[i].sec_level
            != s by {
            if i > 0 {
                assert(entries.drop_first()[i - 1] == entries[i]);
            }
        }
    }
}

/// Appending an entry for a tier that the search does not find makes the
/// search find exactly that entry.
proof fn lemma_find_sec_level_push(entries: Seq<DeviceEntry>, e: DeviceEntry, s: SecurityLevel)
    requires
        spec_find_sec_level(entries, e.sec_level) is None,
        e.sec_level == s,
    ensures
        spec_find_sec_level(entries.push(e), s) == Some(e),
    decreases entries.len(),
{
    if entries.len() == 0 {
        assert(entries.push(e)[0] == e);
    } else {
        assert(entries.push(e)[0] == entries[0]);
        assert(entries.push(e).drop_first() =~= entries.drop_first().push(e));
        lemma_find_sec_level_push(entries.drop_first(), e, s);
    }
}

/// What resolution yields for a tier: the cached handle when there is one,
/// else whatever discovery and connection yield.
pub open spec fn spec_resolve(
    entries: Seq<DeviceEntry>,
    dir: ServiceDirectoryView,
    security_level: SecurityLevel,
) -> Result<(EngineHandle, Uuid), Error> {
    match spec_find_sec_level(entries, security_level) {
        Some(e) => Ok((e.handle, e.uuid)),
        None => match spec_connect_keymint(security_level, dir) {
            Ok(h) => Ok((h, h.hw_info.uuid)),
            Err(e) => Err(e),
        },
    }
}

/// Resolves the engine connection for a tier: idempotent; the first call
/// discovers and connects, later calls return the cached handle and leave
/// the cache unchanged, so resolution after the first success never blocks
/// on the platform.
pub fn get_keymint_device(
    devices: &mut DevicesMap,
    dir: &ServiceDirectory,
    security_level: SecurityLevel,
) -> (r: Result<(EngineHandle, Uuid), Error>)
    requires
        old(devices).wf(),
    ensures
        final(devices).wf(),
        r == spec_resolve(old(devices).spec_entries(), dir@, security_level),
        match spec_find_sec_level(old(devices).spec_entries(), security_level) {
            Some(e) => r == Ok::<(EngineHandle, Uuid), Error>((e.handle, e.uuid))
                && final(devices).spec_entries() == old(devices).spec_entries(),
            None => {
                match spec_connect_keymint(security_level, dir@) {
                    Ok(h) => r == Ok::<(EngineHandle, Uuid), Error>((h, h.hw_info.uuid))
                        && final(devices).spec_entries() == old(devices).spec_entries().push(
                        (DeviceEntry {
                            sec_level: security_level,
                            uuid: h.hw_info.uuid,
                            handle: h,
                        }),
                    ),
                    Err(e) => r == Err::<(EngineHandle, Uuid), Error>(e)
                        && final(devices).spec_entries() == old(devices).spec_entries(),
                }
            },
        },
        // Whatever the path, a success returns the handle now cached for the
        // tier: repeated resolution cannot change identity.
        r matches Ok((h, u)) ==> spec_find_sec_level(final(devices).spec_entries(), security_level)
            == Some((DeviceEntry { sec_level: security_level, uuid: u, handle: h })),
{
    if let Some((handle, uuid)) = devices.dev_by_sec_level(security_level) {
        proof {
            let e = spec_find_sec_level(devices.spec_entries(), security_level).unwrap();
            lemma_found_entry_matches(devices.spec_entries(), security_level);
            assert(e.sec_level == security_level);
        }
        Ok((handle, uuid))
    } else {
        match connect_keymint(security_level, dir) {
            Ok(handle) => {
                let uuid = handle.hw_info.uuid;
                devices.insert(security_level, handle, uuid);
                Ok((handle, uuid))
            },
            Err(e) => Err(e),
        }
    }
}

/// The entry the search finds is for the tier searched.
proof fn lemma_found_entry_matches(entries: Seq<DeviceEntry>, s: SecurityLevel)
    requires
        spec_find_sec_level(entries, s) is Some,
    ensures
        spec_find_sec_level(entries, s).unwrap().sec_level == s,
    decreases entries.len(),
{
    if entries.len() > 0 && entries[0].sec_level != s {
        lemma_found_entry_matches(entries.drop_first(), s);
    }
}

/// Looks up a cached engine by identifier only; never connects.  The cache
/// is populated for every tier at startup, so an unknown identifier is a
/// system error.
pub fn get_keymint_dev_by_uuid(devices: &DevicesMap, uuid: Uuid) -> (r: Result<
    EngineHandle,
    Error,
>)
    ensures
        match spec_find_uuid(devices.spec_entries(), uuid) {
            Some(e) => r == Ok::<EngineHandle, Error>(e.handle),
            None => r == Err::<EngineHandle, Error>(
                Error::Rc(crate::types::ResponseCode::SystemError),
            ),
        },
{
    match devices.dev_by_uuid(uuid) {
        Some(handle) => Ok(handle),
        None => Err(Error::sys()),
    }
}

/// All known engine connections.
pub fn get_keymint_devices(devices: &DevicesMap) -> (r: Vec<EngineHandle>)
    ensures
        r@.len() == devices.spec_entries().len(),
        forall|i: int|
            0 <= i < r@.len() ==> r@[i] == #[trigger] devices.spec_entries()[i].handle,
{
    devices.devices()
}

/// What secure-clock discovery yields: the native "default" instance when
/// one is declared, else the bridge's clock; absent both, the tier has no
/// clock.
pub open spec fn spec_connect_secureclock(dir: ServiceDirectoryView) -> Result<ClockHandle, Error> {
    if spec_declares(dir.clock_instances, "default"@) {
        match dir.secure_clock {
            Some(c) => Ok(c),
            None => Err(Error::Rc(crate::types::ResponseCode::SystemError)),
        }
    } else {
        match dir.secure_clock {
            Some(c) => Ok(c),
            None => Err(Error::Km(ErrorCode::HardwareTypeUnavailable)),
        }
    }
}

/// Connects to the secure clock service, natively or through the bridge.
pub fn connect_secureclock(dir: &ServiceDirectory) -> (r: Result<ClockHandle, Error>)
    ensures
        r == spec_connect_secureclock(dir@),
{
    let declared = contains_instance(&dir.clock_instances, "default");
    match &dir.secure_clock {
        Some(c) => Ok(*c),
        None => {
            if declared {
                Err(Error::Rc(crate::types::ResponseCode::SystemError))
            } else {
                Err(Error::Km(ErrorCode::HardwareTypeUnavailable))
            }
        },
    }
}

/// The cached timestamp service, connecting on first use.
pub fn get_timestamp_service(cache: &mut Option<ClockHandle>, dir: &ServiceDirectory) -> (r:
    Result<ClockHandle, Error>)
    ensures
        *old(cache) matches Some(c) ==> (r == Ok::<ClockHandle, Error>(c)
            && *final(cache) == *old(cache)),
        *old(cache) is None ==> {
            match spec_connect_secureclock(dir@) {
                Ok(c) => r == Ok::<ClockHandle, Error>(c) && *final(cache) == Some(c),
                Err(e) => r == Err::<ClockHandle, Error>(e) && *final(cache) is None,
            }
        },
{
    match cache {
        Some(c) => Ok(*c),
        None => {
            match connect_secureclock(dir) {
                Ok(c) => {
                    *cache = Some(c);
                    Ok(c)
                },
                Err(e) => Err(e),
            }
        },
    }
}

/// A remote-provisioning component, per tier.
#[derive(Clone, Copy, Debug, PartialEq, Eq, Structural)]
pub enum RpcComponent {
    Default,
    Strongbox,
}

/// The remote-provisioning component serving a tier, when one is declared.
pub fn get_remotely_provisioned_component_name(
    security_level: SecurityLevel,
    dir: &ServiceDirectory,
) -> (r: Result<RpcComponent, Error>)
    ensures
        security_level == SecurityLevel::TrustedEnvironment && dir.rpc_default_declared <==> r
            == Ok::<RpcComponent, Error>(RpcComponent::Default),
        security_level == SecurityLevel::Strongbox && dir.rpc_strongbox_declared <==> r == Ok::<
            RpcComponent,
            Error,
        >(RpcComponent::Strongbox),
        r is Err ==> r == Err::<RpcComponent, Error>(Error::Km(ErrorCode::HardwareTypeUnavailable)),
{
    match security_level {
        SecurityLevel::TrustedEnvironment => {
            if dir.rpc_default_declared {
                Ok(RpcComponent::Default)
            } else {
                Err(Error::Km(ErrorCode::HardwareTypeUnavailable))
            }
        },
        SecurityLevel::Strongbox => {
            if dir.rpc_strongbox_declared {
                Ok(RpcComponent::Strongbox)
            } else {
                Err(Error::Km(ErrorCode::HardwareTypeUnavailable))
            }
        },
        _ => Err(Error::Km(ErrorCode::HardwareTypeUnavailable)),
    }
}

/// Whether boot has completed: only then is it safe to make permanent
/// changes to state.
#[derive(Debug)]
pub struct BootState {
    completed: bool,
}

impl BootState {
    /// The completion flag.
    pub closed spec fn spec_completed(&self) -> bool {
        self.completed
    }

    /// The state at process start: boot not yet complete.
    pub fn new() -> (r: BootState)
        ensures
            !r.spec_completed(),
    {
        BootState { completed: false }
    }

    /// Whether boot is complete.
    pub fn boot_completed(&self) -> (r: bool)
        ensures
            r == self.spec_completed(),
    {
        self.completed
    }

    /// Records that boot has completed.
    pub fn set_boot_completed(&mut self)
        ensures
            final(self).spec_completed(),
    {
        self.completed = true;
    }
}

} // verus!
