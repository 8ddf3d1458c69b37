//! Operating directly on one engine: lookup-or-generate of internal keys,
//! transparent blob upgrade, and one-shot key use.
//!
//! Every engine call and store access is an event handed in by the caller;
//! the decisions between them are verified.  The corruption rule lives
//! here: a stored blob whose metadata does not name the engine currently
//! serving its tier is never used — it is regenerated.

use vstd::prelude::*;

use crate::device::{get_keymint_device, spec_resolve, DevicesMap, ServiceDirectory};
use crate::store::{BlobPersistRequest, KeyEntry, KeyEntryView, KeyType, NewKeyRecord};
use crate::super_key::BlobMetaData;
use crate::types::{
    BeginResult, Error, ErrorCode, HardwareAuthToken, KeyCharacteristics, KeyCreationResult,
    KeyDescriptor, KeyParameter, KeyPurpose, ResponseCode, SecurityLevel, Uuid,
};
use crate::upgrade::{spec_run_upgrade_protocol, OpOutcome, UpgradeState};

verus! {

/// Version number of the last big-numbered legacy engine generation.
pub const KEY_MASTER_V4_0: i32 = 40;

/// Version number of the minor revision of that generation.
pub const KEY_MASTER_V4_1: i32 = 41;

/// Normalised version of the first current-interface generation.
pub const KEY_MINT_V1: i32 = 100;

/// Normalised version of the second current-interface generation.
pub const KEY_MINT_V2: i32 = 200;

/// Normalised version of the third current-interface generation.
pub const KEY_MINT_V3: i32 = 300;

/// The service's own identity for internal-use keys.
pub const AID_KEYSTORE: u32 = 1017;

/// The outcome, as the protocol sees it, of an engine call that may demand
/// a blob upgrade.
pub open spec fn spec_op_outcome<T>(r: Result<T, ErrorCode>) -> OpOutcome {
    match r {
        Ok(_) => OpOutcome::Success,
        Err(ErrorCode::KeyRequiresUpgrade) => OpOutcome::RequiresUpgrade,
        Err(e) => OpOutcome::Failed(Error::Km(e)),
    }
}

/// The replies of the external calls an upgrade-wrapped engine operation
/// may make: the first attempt; and, only consulted when that attempt
/// demands an upgrade, the engine's upgrade call, the persistence callback
/// and the retried attempt.
#[derive(Debug)]
pub struct EngineUpgradeEvents<T> {
    pub first: Result<T, ErrorCode>,
    pub upgrade: Result<Vec<u8>, Error>,
    pub persist: Result<(), Error>,
    pub second: Result<T, ErrorCode>,
}

/// Runs an engine operation under the upgrade protocol: when the first
/// attempt demands a newer blob format, the blob is upgraded, handed to the
/// persistence callback, and the operation retried once on the new blob.
/// Returns the operation's payload, the new blob when one was made, and
/// whether it was durably persisted (a failure to persist is transient and
/// does not fail the operation).
pub fn upgrade_keyblob_if_required_with<T>(events: EngineUpgradeEvents<T>) -> (r: Result<
    (T, Option<Vec<u8>>, bool),
    Error,
>)
    ensures
        ({
            let m = spec_run_upgrade_protocol(
                spec_op_outcome(events.first),
                events.upgrade,
                events.persist,
                spec_op_outcome(events.second),
            );
            &&& (m.state matches UpgradeState::Aborted { error } ==> r == Err::<
                (T, Option<Vec<u8>>, bool),
                Error,
            >(error))
            &&& (m.state matches UpgradeState::Done { upgraded, persisted } ==> (r matches Ok(
                (_, u, p),
            ) && u == upgraded && p == persisted))
        }),
        (events.first matches Ok(t) ==> r == Ok::<(T, Option<Vec<u8>>, bool), Error>(
            (t, None, true),
        )),
        events.first matches Err(e) ==> (e != ErrorCode::KeyRequiresUpgrade ==> r == Err::<
            (T, Option<Vec<u8>>, bool),
            Error,
        >(Error::Km(e))),
        events.first == Err::<T, ErrorCode>(ErrorCode::KeyRequiresUpgrade) ==> match events
            .upgrade {
            Err(e) => r == Err::<(T, Option<Vec<u8>>, bool), Error>(e),
            Ok(nb) => match events.second {
                Ok(t) => r == Ok::<(T, Option<Vec<u8>>, bool), Error>(
                    (t, Some(nb), events.persist is Ok),
                ),
                Err(e) => r == Err::<(T, Option<Vec<u8>>, bool), Error>(Error::Km(e)),
            },
        },
{
    match events.first {
        Ok(t) => Ok((t, None, true)),
        Err(ErrorCode::KeyRequiresUpgrade) => {
            match events.upgrade {
                Err(e) => Err(e),
                Ok(new_blob) => {
                    let persisted = events.persist.is_ok();
                    match events.second {
                        Ok(t) => Ok((t, Some(new_blob), persisted)),
                        Err(e) => Err(Error::Km(e)),
                    }
                },
            }
        },
        Err(e) => Err(Error::Km(e)),
    }
}

/// A direct handle on one engine for internal-use keys.
#[derive(Clone, Copy, Debug)]
pub struct KeyMintDevice {
    km_uuid: Uuid,
    version: i32,
    security_level: SecurityLevel,
}

/// A stored entry's blob may be used with the engine identified by
/// `km_uuid`: it has a blob, and the blob's metadata names that engine.
/// Anything else is absent or corrupted and must be regenerated.
pub open spec fn spec_blob_acceptable(entry: KeyEntryView, km_uuid: Uuid) -> bool {
    entry.blob_info matches Some((_, meta)) && meta.km_uuid == Some(km_uuid)
}

/// The replies consumed by `lookup_or_generate_key`, in the order the calls
/// are made.  Later replies are consulted only when the flow reaches them.
#[derive(Debug)]
pub struct LookupOrGenerateEnv {
    /// The store's reply to the first lookup; `KeyNotFound` when absent.
    pub lookup: Result<KeyEntry, Error>,
    /// The engine's replies to `getKeyCharacteristics`, upgrade-wrapped.
    pub characteristics: EngineUpgradeEvents<Vec<KeyCharacteristics>>,
    /// The caller's verdict on the returned characteristics: whether the
    /// existing key still satisfies the original request.
    pub characteristics_valid: bool,
    /// The engine's reply to `generateKey`.
    pub generate: Result<KeyCreationResult, ErrorCode>,
    /// Creation time for the new key, milliseconds since the epoch.
    pub creation_date_ms: i64,
    /// The store's reply to persisting the new key.
    pub store: Result<(), Error>,
    /// The store's reply to the lookup that re-reads the new key.
    pub relookup: Result<KeyEntry, Error>,
}

/// What `lookup_or_generate_key` yields on success.
#[derive(Debug)]
pub struct LookupOrGenerateResult {
    /// The store row id of the key in use.
    pub key_id: i64,
    /// The blob to use with the engine.
    pub blob: Vec<u8>,
    /// Whether the key was regenerated rather than reused.
    pub regenerated: bool,
    /// A new-key record the caller must persist, present exactly when the
    /// key was regenerated.
    pub new_key: Option<NewKeyRecord>,
    /// A blob-replacement request the caller must persist, present exactly
    /// when an existing key's blob was upgraded.
    pub persist: Option<BlobPersistRequest>,
    /// Whether an upgraded blob was already durably persisted.
    pub persisted: bool,
}

/// What the regeneration path yields: the new key's row id and blob, or the
/// error of the step that failed.
pub open spec fn spec_regenerate(
    generate: Result<KeyCreationResult, ErrorCode>,
    store: Result<(), Error>,
    relookup: Result<KeyEntry, Error>,
) -> Result<(i64, Seq<u8>), Error> {
    match generate {
        Err(e) => Err(Error::Km(e)),
        Ok(_) => match store {
            Err(e) => Err(e),
            Ok(_) => match relookup {
                Err(e) => Err(e),
                Ok(entry) => match entry@.blob_info {
                    None => Err(Error::Rc(ResponseCode::KeyNotFound)),
                    Some((b, _)) => Ok((entry.key_id, b)),
                },
            },
        },
    }
}

/// Whether `lookup_or_generate_key` takes the regeneration path: the key is
/// absent, its blob is missing or names another engine, or its
/// characteristics no longer satisfy the caller.
pub open spec fn spec_takes_regeneration(env: LookupOrGenerateEnv, km_uuid: Uuid) -> bool {
    match env.lookup {
        Err(e) => e == Error::Rc(ResponseCode::KeyNotFound),
        Ok(entry) => !spec_blob_acceptable(entry@, km_uuid) || (spec_run_upgrade_protocol(
            spec_op_outcome(env.characteristics.first),
            env.characteristics.upgrade,
            env.characteristics.persist,
            spec_op_outcome(env.characteristics.second),
        ).state is Done && !env.characteristics_valid),
    }
}

impl KeyMintDevice {
    /// The identifier of the engine this handle operates on.
    pub closed spec fn spec_km_uuid(&self) -> Uuid {
        self.km_uuid
    }

    /// The normalised version of the engine.
    pub closed spec fn spec_version(&self) -> i32 {
        self.version
    }

    /// The security level the engine implements.
    pub closed spec fn spec_security_level(&self) -> SecurityLevel {
        self.security_level
    }

    /// Resolves a direct handle for the given tier.
    pub fn get(
        devices: &mut DevicesMap,
        dir: &ServiceDirectory,
        security_level: SecurityLevel,
    ) -> (r: Result<KeyMintDevice, Error>)
        requires
            old(devices).wf(),
        ensures
            final(devices).wf(),
            match spec_resolve(old(devices).spec_entries(), dir@, security_level) {
                Ok((h, u)) => r matches Ok(d) && d.spec_km_uuid() == u && d.spec_version()
                    == h.hw_info.version_number && d.spec_security_level()
                    == h.hw_info.security_level,
                Err(e) => r == Err::<KeyMintDevice, Error>(e),
            },
    {
        match get_keymint_device(devices, dir, security_level) {
            Ok((handle, uuid)) => Ok(
                KeyMintDevice {
                    km_uuid: uuid,
                    version: handle.hw_info.version_number,
                    security_level: handle.hw_info.security_level,
                },
            ),
            Err(e) => Err(e),
        }
    }

    /// Resolves a direct handle, mapping a legitimately absent tier to
    /// `None` rather than an error.
    pub fn get_or_none(
        devices: &mut DevicesMap,
        dir: &ServiceDirectory,
        security_level: SecurityLevel,
    ) -> (r: Result<Option<KeyMintDevice>, Error>)
        requires
            old(devices).wf(),
        ensures
            final(devices).wf(),
            match spec_resolve(old(devices).spec_entries(), dir@, security_level) {
                Ok((h, u)) => r matches Ok(Some(d)) && d.spec_km_uuid() == u && d.spec_version()
                    == h.hw_info.version_number && d.spec_security_level()
                    == h.hw_info.security_level,
                Err(e) => {
                    if e == Error::Km(ErrorCode::HardwareTypeUnavailable) {
                        r == Ok::<Option<KeyMintDevice>, Error>(None)
                    } else {
                        r == Err::<Option<KeyMintDevice>, Error>(e)
                    }
                },
            },
    {
        match KeyMintDevice::get(devices, dir, security_level) {
            Ok(d) => Ok(Some(d)),
            Err(Error::Km(ErrorCode::HardwareTypeUnavailable)) => Ok(None),
            Err(e) => Err(e),
        }
    }

    /// The normalised version of the underlying engine.
    pub fn version(&self) -> (r: i32)
        ensures
            r == self.spec_version(),
    {
        self.version
    }

    /// The self-advertised security level of the engine, which may differ
    /// from the requested tier when the best available level is software.
    pub fn security_level(&self) -> (r: SecurityLevel)
        ensures
            r == self.spec_security_level(),
    {
        self.security_level
    }

    /// A descriptor for internal-use keys, filed under the service's own
    /// identity.
    pub fn internal_descriptor(alias: String) -> (r: KeyDescriptor)
        ensures
            r@.domain == crate::types::Domain::App,
            r@.nspace == AID_KEYSTORE as i64,
            r@.alias == Some(alias@),
            r@.blob is None,
    {
        KeyDescriptor {
            domain: crate::types::Domain::App,
            nspace: AID_KEYSTORE as i64,
            alias: Some(alias),
            blob: None,
        }
    }

    /// Maps the store's key-not-found reply to an absent entry; every other
    /// reply passes through.
    pub fn not_found_is_none(lookup: Result<KeyEntry, Error>) -> (r: Result<
        Option<KeyEntry>,
        Error,
    >)
        ensures
            match lookup {
                Ok(entry) => r == Ok::<Option<KeyEntry>, Error>(Some(entry)),
                Err(e) => {
                    if e == Error::Rc(ResponseCode::KeyNotFound) {
                        r == Ok::<Option<KeyEntry>, Error>(None)
                    } else {
                        r == Err::<Option<KeyEntry>, Error>(e)
                    }
                },
            },
    {
        match lookup {
            Ok(entry) => Ok(Some(entry)),
            Err(Error::Rc(ResponseCode::KeyNotFound)) => Ok(None),
            Err(e) => Err(e),
        }
    }

    /// Builds the record that stores a key the engine just created: the
    /// engine's blob with metadata naming this engine, the flattened
    /// characteristics, and no certificates.
    pub fn create_and_store_key(
        &self,
        key_desc: KeyDescriptor,
        key_type: KeyType,
        creation: Result<KeyCreationResult, ErrorCode>,
        creation_date_ms: i64,
    ) -> (r: Result<NewKeyRecord, Error>)
        ensures
            creation matches Err(e) ==> r == Err::<NewKeyRecord, Error>(Error::Km(e)),
            creation matches Ok(cr) ==> (r matches Ok(rec) && {
                &&& rec@.descriptor == key_desc@
                &&& rec@.key_type == key_type
                &&& rec@.blob == cr.key_blob@
                &&& rec@.blob_metadata.km_uuid == Some(self.spec_km_uuid())
                &&& rec@.blob_metadata.wrapping is Plain
                &&& rec@.parameters == crate::types::spec_characteristics_to_internal(
                    crate::types::characteristics_view(cr.key_characteristics@),
                )
                &&& rec@.cert is None
                &&& rec@.cert_chain is None
                &&& rec@.creation_date_ms == creation_date_ms
                &&& rec@.km_uuid == self.spec_km_uuid()
            }),
    {
        match creation {
            Err(e) => Err(Error::Km(e)),
            Ok(cr) => {
                let parameters = crate::types::key_characteristics_to_internal(
                    cr.key_characteristics,
                );
                let mut blob_metadata = BlobMetaData::new();
                blob_metadata.add_km_uuid(self.km_uuid);
                Ok(
                    NewKeyRecord {
                        descriptor: key_desc,
                        key_type,
                        parameters,
                        blob: cr.key_blob,
                        blob_metadata,
                        cert: None,
                        cert_chain: None,
                        creation_date_ms,
                        km_uuid: self.km_uuid,
                    },
                )
            },
        }
    }

    /// Looks an internal key up and uses it when it is current, else
    /// generates a replacement: a found entry is used only when its blob's
    /// metadata names this engine and its characteristics still satisfy the
    /// caller (`characteristics_valid`); the engine call is upgrade-wrapped,
    /// and an upgraded blob comes back as a persistence request.  An absent,
    /// corrupted or outdated key is regenerated via the engine and the
    /// store, and re-read.
    ///
    /// The caller must hold its advisory lock across the whole call: lookup
    /// and store are separate store transactions.
    pub fn lookup_or_generate_key(&self, env: LookupOrGenerateEnv) -> (r: Result<
        LookupOrGenerateResult,
        Error,
    >)
        ensures
            // A store failure other than key-not-found is propagated.
            env.lookup matches Err(e) ==> (e != Error::Rc(ResponseCode::KeyNotFound) ==> r
                == Err::<LookupOrGenerateResult, Error>(e)),
            // Reuse: a current, valid blob is returned unchanged — no
            // regeneration, nothing to persist.
            env.lookup matches Ok(entry) ==> ((spec_blob_acceptable(entry@, self.spec_km_uuid())
                && env.characteristics.first is Ok && env.characteristics_valid) ==> (r matches Ok(
                res,
            ) && {
                &&& entry@.blob_info matches Some((b, _)) && res.blob@ == b
                &&& res.key_id == entry.key_id
                &&& !res.regenerated
                &&& res.new_key is None
                &&& res.persist is None
            })),
            // Upgrade: a current blob in an outdated format is upgraded,
            // used, and handed back as a persistence request for the same
            // key row.
            env.lookup matches Ok(entry) ==> (env.characteristics.upgrade matches Ok(nb) ==> ((
            spec_blob_acceptable(entry@, self.spec_km_uuid()) && env.characteristics.first
                == Err::<Vec<KeyCharacteristics>, ErrorCode>(ErrorCode::KeyRequiresUpgrade)
                && env.characteristics.second is Ok && env.characteristics_valid) ==> (r
                matches Ok(res) && {
                &&& res.blob@ == nb@
                &&& res.key_id == entry.key_id
                &&& !res.regenerated
                &&& res.new_key is None
                &&& res.persist matches Some(p) && p.key_id == entry.key_id && p.blob@ == nb@
                    && p.blob_metadata@.km_uuid == Some(self.spec_km_uuid())
                &&& res.persisted == (env.characteristics.persist is Ok)
            }))),
            // The upgrade-wrapped engine call failing aborts the flow with
            // that error.
            env.lookup matches Ok(entry) ==> (spec_blob_acceptable(entry@, self.spec_km_uuid())
                ==> (spec_run_upgrade_protocol(
                spec_op_outcome(env.characteristics.first),
                env.characteristics.upgrade,
                env.characteristics.persist,
                spec_op_outcome(env.characteristics.second),
            ).state matches UpgradeState::Aborted { error } ==> r == Err::<
                LookupOrGenerateResult,
                Error,
            >(error))),
            // Regeneration: an absent key, a corrupted blob — one missing
            // or naming another engine — or failed validation is never
            // used; the key is regenerated and re-read.
            spec_takes_regeneration(env, self.spec_km_uuid()) ==> match spec_regenerate(
                env.generate,
                env.store,
                env.relookup,
            ) {
                Ok((id, b)) => r matches Ok(res) && res.key_id == id && res.blob@ == b
                    && res.regenerated && res.new_key is Some && res.persist is None,
                Err(e) => r == Err::<LookupOrGenerateResult, Error>(e),
            },
    {
        let LookupOrGenerateEnv {
            lookup,
            characteristics,
            characteristics_valid,
            generate,
            creation_date_ms,
            store,
            relookup,
        } = env;
        let existing = match Self::not_found_is_none(lookup) {
            Ok(existing) => existing,
            Err(e) => {
                return Err(e);
            },
        };
        if let Some(entry) = existing {
            let key_id = entry.key_id;
            let acceptable = match &entry.blob_info {
                Some((_, metadata)) => {
                    match metadata.km_uuid() {
                        Some(uuid) => uuid == self.km_uuid,
                        None => false,
                    }
                },
                None => false,
            };
            if acceptable {
                match upgrade_keyblob_if_required_with(characteristics) {
                    Err(e) => {
                        return Err(e);
                    },
                    Ok((_characteristics, upgraded, persisted)) => {
                        if characteristics_valid {
                            match upgraded {
                                None => {
                                    let (blob, _) = entry.blob_info.unwrap();
                                    return Ok(
                                        LookupOrGenerateResult {
                                            key_id,
                                            blob,
                                            regenerated: false,
                                            new_key: None,
                                            persist: None,
                                            persisted: true,
                                        },
                                    );
                                },
                                Some(new_blob) => {
                                    let stored = vstd::slice::slice_to_vec(new_blob.as_slice());
                                    let mut blob_metadata = BlobMetaData::new();
                                    blob_metadata.add_km_uuid(self.km_uuid);
                                    return Ok(
                                        LookupOrGenerateResult {
                                            key_id,
                                            blob: new_blob,
                                            regenerated: false,
                                            new_key: None,
                                            persist: Some(
                                                BlobPersistRequest {
                                                    key_id,
                                                    blob: stored,
                                                    blob_metadata,
                                                },
                                            ),
                                            persisted,
                                        },
                                    );
                                },
                            }
                        }
                        // The engine answered, but the key no longer
                        // satisfies the caller: replace it below.
                    },
                }
            }
            // A missing blob or one naming another engine is corrupted:
            // replace it below, never hand it to the engine.
        }
        let descriptor = KeyDescriptor {
            domain: crate::types::Domain::App,
            nspace: AID_KEYSTORE as i64,
            alias: None,
            blob: None,
        };
        let record = match self.create_and_store_key(
            descriptor,
            KeyType::Client,
            generate,
            creation_date_ms,
        ) {
            Ok(record) => record,
            Err(e) => {
                return Err(e);
            },
        };
        if let Err(e) = store {
            return Err(e);
        }
        match relookup {
            Err(e) => Err(e),
            Ok(entry) => {
                match entry.blob_info {
                    None => Err(Error::Rc(ResponseCode::KeyNotFound)),
                    Some((blob, _)) => Ok(
                        LookupOrGenerateResult {
                            key_id: entry.key_id,
                            blob,
                            regenerated: true,
                            new_key: Some(record),
                            persist: None,
                            persisted: true,
                        },
                    ),
                }
            },
        }
    }

    /// Uses a key in one step: an upgrade-wrapped `begin` followed by
    /// `finish`.  Returns the operation's output and, when the blob was
    /// upgraded on the way, the persistence request for it.
    pub fn use_key_in_one_step(
        &self,
        key_id: i64,
        key_blob: &[u8],
        purpose: KeyPurpose,
        operation_parameters: &Vec<KeyParameter>,
        auth_token: Option<&HardwareAuthToken>,
        input: &[u8],
        begin_events: EngineUpgradeEvents<BeginResult>,
        finish: Result<Vec<u8>, ErrorCode>,
    ) -> (r: Result<(Vec<u8>, Option<BlobPersistRequest>), Error>)
        ensures
            // A plain begin and finish pass the output through, with
            // nothing to persist.
            (begin_events.first matches Ok(br) && br.operation is Some) ==> match finish {
                Ok(out) => r matches Ok((o, p)) && o@ == out@ && p is None,
                Err(e) => r == Err::<(Vec<u8>, Option<BlobPersistRequest>), Error>(Error::Km(e)),
            },
            // A begin that succeeds without issuing an operation is a
            // system error.
            (begin_events.first matches Ok(br) && br.operation is None) ==> r == Err::<
                (Vec<u8>, Option<BlobPersistRequest>),
                Error,
            >(Error::Rc(ResponseCode::SystemError)),
            // An upgraded blob comes back as a persistence request for the
            // key's row.
            begin_events.upgrade matches Ok(nb) ==> (begin_events.first == Err::<
                BeginResult,
                ErrorCode,
            >(ErrorCode::KeyRequiresUpgrade) ==> match begin_events.second {
                Ok(br2) => {
                    if br2.operation is Some {
                        match finish {
                            Ok(out) => r matches Ok((o, p)) && o@ == out@ && (p matches Some(req)
                                && req.key_id == key_id && req.blob@ == nb@
                                && req.blob_metadata@.km_uuid == Some(self.spec_km_uuid())),
                            Err(e) => r == Err::<(Vec<u8>, Option<BlobPersistRequest>), Error>(
                                Error::Km(e),
                            ),
                        }
                    } else {
                        r == Err::<(Vec<u8>, Option<BlobPersistRequest>), Error>(
                            Error::Rc(ResponseCode::SystemError),
                        )
                    }
                },
                Err(e) => r == Err::<(Vec<u8>, Option<BlobPersistRequest>), Error>(Error::Km(e)),
            }),
            // Any other failing begin propagates its error.
            ({
                let m = spec_run_upgrade_protocol(
                    spec_op_outcome(begin_events.first),
                    begin_events.upgrade,
                    begin_events.persist,
                    spec_op_outcome(begin_events.second),
                );
                m.state matches UpgradeState::Aborted { error } ==> r == Err::<
                    (Vec<u8>, Option<BlobPersistRequest>),
                    Error,
                >(error)
            }),
    {
        let (begin_result, upgraded, _persisted) = match upgrade_keyblob_if_required_with(
            begin_events,
        ) {
            Ok(v) => v,
            Err(e) => {
                return Err(e);
            },
        };
        let persist = match upgraded {
            None => None,
            Some(new_blob) => {
                let mut blob_metadata = BlobMetaData::new();
                blob_metadata.add_km_uuid(self.km_uuid);
                Some(BlobPersistRequest { key_id, blob: new_blob, blob_metadata })
            },
        };
        match begin_result.operation {
            None => Err(Error::sys()),
            Some(_op) => {
                match finish {
                    Ok(output) => Ok((output, persist)),
                    Err(e) => Err(Error::Km(e)),
                }
            },
        }
    }
}

/// Corruption detection: a stored blob whose metadata names engine `x`
/// while the engine serving the tier is `y != x` — or whose metadata names
/// no engine at all — is treated as absent.  The flow takes the
/// regeneration path; the stale blob is never handed to an engine call.
pub proof fn lemma_corrupt_blob_never_used(entry: KeyEntry, km_uuid: Uuid, env: LookupOrGenerateEnv)
    requires
        env.lookup == Ok::<KeyEntry, Error>(entry),
        match entry@.blob_info {
            Some((_, meta)) => meta.km_uuid != Some(km_uuid),
            None => true,
        },
    ensures
        !spec_blob_acceptable(entry@, km_uuid),
        spec_takes_regeneration(env, km_uuid),
{
}

/// Engine-identity stability: once a tier's engine is cached, resolving the
/// tier again yields the same engine identifier, and a stored blob whose
/// metadata names that engine, whose operation succeeds first try and whose
/// characteristics still satisfy the caller is reused unchanged — no
/// regeneration and nothing new to persist.
pub proof fn lemma_stable_engine_reuses_blob(
    entries: Seq<crate::device::DeviceEntry>,
    dir: crate::device::ServiceDirectoryView,
    tier: SecurityLevel,
    cached: crate::device::DeviceEntry,
    entry: KeyEntry,
    env: LookupOrGenerateEnv,
)
    requires
        crate::device::spec_find_sec_level(entries, tier) == Some(cached),
        env.lookup == Ok::<KeyEntry, Error>(entry),
        entry@.blob_info matches Some((_, meta)) && meta.km_uuid == Some(cached.uuid),
        env.characteristics.first is Ok,
        env.characteristics_valid,
    ensures
        // Resolving the tier again returns the cached engine: same
        // identifier as the one the blob was produced by.
        spec_resolve(entries, dir, tier) == Ok::<(crate::device::EngineHandle, Uuid), Error>(
            (cached.handle, cached.uuid),
        ),
        // The lookup path accepts the blob: no regeneration.
        spec_blob_acceptable(entry@, cached.uuid),
        !spec_takes_regeneration(env, cached.uuid),
{
    let m = spec_run_upgrade_protocol(
        spec_op_outcome(env.characteristics.first),
        env.characteristics.upgrade,
        env.characteristics.persist,
        spec_op_outcome(env.characteristics.second),
    );
    assert(m.state is Done);
}

} // verus!
