//! Shared data model of the key-blob lifecycle engine: security tiers, engine
//! identifiers, key descriptors, key parameters and the error taxonomy.
//!
//! Each data type that carries byte buffers or strings has a mathematical
//! view (`@`) over `Seq`, and the library's contracts speak of those views.

use vstd::prelude::*;

verus! {

/// Security tier of an engine: the trust class a caller requests.
#[derive(Clone, Copy, Debug, PartialEq, Eq, Structural)]
pub enum SecurityLevel {
    /// Purely software-backed engine.
    Software,
    /// Trusted execution environment (the primary hardware tier).
    TrustedEnvironment,
    /// Dedicated tamper-resistant hardware (the secondary tier).
    Strongbox,
}

/// Identifier of one engine instance.  A blob's metadata records the
/// identifier of the engine that produced it.
#[derive(Clone, Copy, Debug, PartialEq, Eq, Structural)]
pub struct Uuid {
    pub value: u64,
}

/// Caller-facing identity domain of a key.
#[derive(Clone, Copy, Debug, PartialEq, Eq, Structural)]
pub enum Domain {
    App,
    Grant,
    Selinux,
    Blob,
    KeyId,
}

/// Caller-facing identity of a key: the lookup key into the metadata store,
/// or a raw blob carried by the caller itself.
#[derive(Debug)]
pub struct KeyDescriptor {
    pub domain: Domain,
    pub nspace: i64,
    pub alias: Option<String>,
    pub blob: Option<Vec<u8>>,
}

/// Mathematical view of a `KeyDescriptor`.
pub struct KeyDescriptorView {
    pub domain: Domain,
    pub nspace: i64,
    pub alias: Option<Seq<char>>,
    pub blob: Option<Seq<u8>>,
}

impl View for KeyDescriptor {
    type V = KeyDescriptorView;

    open spec fn view(&self) -> KeyDescriptorView {
        KeyDescriptorView {
            domain: self.domain,
            nspace: self.nspace,
            alias: match self.alias {
                Option::Some(a) => Option::Some(a@),
                Option::None => Option::None,
            },
            blob: match self.blob {
                Option::Some(b) => Option::Some(b@),
                Option::None => Option::None,
            },
        }
    }
}

impl Clone for KeyDescriptor {
    fn clone(&self) -> (r: Self)
        ensures
            r@ == self@,
    {
        KeyDescriptor {
            domain: self.domain,
            nspace: self.nspace,
            alias: match &self.alias {
                Option::Some(a) => Option::Some(a.clone()),
                Option::None => Option::None,
            },
            blob: match &self.blob {
                Option::Some(b) => {
                    let c = b.clone();
                    proof {
                        assert(c@ =~= b@);
                    }
                    Option::Some(c)
                },
                Option::None => Option::None,
            },
        }
    }
}

/// Parameter tags understood by the lifecycle engine.
#[derive(Clone, Copy, Debug, PartialEq, Eq, Structural)]
pub enum Tag {
    Purpose,
    Algorithm,
    KeySize,
    CreationDatetime,
    AttestationChallenge,
    AttestationApplicationId,
    AttestationIdBrand,
    AttestationIdDevice,
    AttestationIdProduct,
    AttestationIdSerial,
    AttestationIdImei,
    AttestationIdMeid,
    AttestationIdManufacturer,
    AttestationIdModel,
    IncludeUniqueId,
    ResetSinceIdRotation,
    CertificateNotBefore,
    CertificateNotAfter,
    UserId,
}

#[derive(Clone, Copy, Debug, PartialEq, Eq, Structural)]
pub enum Algorithm {
    Rsa,
    Ec,
    Aes,
    TripleDes,
    Hmac,
}

#[derive(Clone, Copy, Debug, PartialEq, Eq, Structural)]
pub enum KeyPurpose {
    Encrypt,
    Decrypt,
    Sign,
    Verify,
    WrapKey,
    AgreeKey,
    AttestKey,
}

/// Wire format of imported key material.
#[derive(Clone, Copy, Debug, PartialEq, Eq, Structural)]
pub enum KeyFormat {
    X509,
    Pkcs8,
    Raw,
}

/// One engine-enforced or caller-supplied key parameter.
#[derive(Debug)]
pub struct KeyParameter {
    pub tag: Tag,
    pub value: KeyParameterValue,
}

#[derive(Debug)]
pub enum KeyParameterValue {
    KeyPurpose(KeyPurpose),
    Algorithm(Algorithm),
    Integer(i32),
    DateTime(i64),
    Blob(Vec<u8>),
    BoolValue(bool),
}

/// Mathematical view of a `KeyParameterValue`.
pub enum ValueView {
    KeyPurpose(KeyPurpose),
    Algorithm(Algorithm),
    Integer(i32),
    DateTime(i64),
    Blob(Seq<u8>),
    BoolValue(bool),
}

impl View for KeyParameterValue {
    type V = ValueView;

    open spec fn view(&self) -> ValueView {
        match self {
            KeyParameterValue::KeyPurpose(p) => ValueView::KeyPurpose(*p),
            KeyParameterValue::Algorithm(a) => ValueView::Algorithm(*a),
            KeyParameterValue::Integer(i) => ValueView::Integer(*i),
            KeyParameterValue::DateTime(d) => ValueView::DateTime(*d),
            KeyParameterValue::Blob(b) => ValueView::Blob(b@),
            KeyParameterValue::BoolValue(b) => ValueView::BoolValue(*b),
        }
    }
}

impl Clone for KeyParameterValue {
    fn clone(&self) -> (r: Self)
        ensures
            r@ == self@,
    {
        match self {
            KeyParameterValue::KeyPurpose(p) => KeyParameterValue::KeyPurpose(*p),
            KeyParameterValue::Algorithm(a) => KeyParameterValue::Algorithm(*a),
            KeyParameterValue::Integer(i) => KeyParameterValue::Integer(*i),
            KeyParameterValue::DateTime(d) => KeyParameterValue::DateTime(*d),
            KeyParameterValue::Blob(b) => {
                let c = b.clone();
                proof {
                    assert(c@ =~= b@);
                }
                KeyParameterValue::Blob(c)
            },
            KeyParameterValue::BoolValue(b) => KeyParameterValue::BoolValue(*b),
        }
    }
}

/// Mathematical view of a `KeyParameter`.
pub struct ParamView {
    pub tag: Tag,
    pub value: ValueView,
}

impl View for KeyParameter {
    type V = ParamView;

    open spec fn view(&self) -> ParamView {
        ParamView { tag: self.tag, value: self.value@ }
    }
}

impl Clone for KeyParameter {
    fn clone(&self) -> (r: Self)
        ensures
            r@ == self@,
    {
        KeyParameter { tag: self.tag, value: self.value.clone() }
    }
}

/// The views of a list of parameters.
pub open spec fn params_view(ps: Seq<KeyParameter>) -> Seq<ParamView> {
    ps.map_values(|p: KeyParameter| p@)
}

/// Error codes reported by a secure-processor engine.
#[derive(Clone, Copy, Debug, PartialEq, Eq, Structural)]
pub enum ErrorCode {
    /// The engine's operation slots are full; recoverable by eviction.
    TooManyOperations,
    /// The blob does not belong to this engine or was tampered with.
    InvalidKeyBlob,
    /// The blob predates the engine's current format and must be upgraded.
    KeyRequiresUpgrade,
    /// The requested engine tier does not exist on this device.
    HardwareTypeUnavailable,
    /// A malformed request.
    InvalidArgument,
    /// Any other engine-specific code, carried through unchanged.
    Other(i32),
}

/// Service-level response codes.
#[derive(Clone, Copy, Debug, PartialEq, Eq, Structural)]
pub enum ResponseCode {
    KeyNotFound,
    Locked,
    InvalidArgument,
    GetAttestationApplicationIdFailed,
    SystemError,
    PermissionDenied,
}

/// The error type of the lifecycle engine: either an engine error code or a
/// service response code.
#[derive(Clone, Copy, Debug, PartialEq, Eq, Structural)]
pub enum Error {
    Km(ErrorCode),
    Rc(ResponseCode),
}

impl Error {
    /// An unspecified system error.
    pub fn sys() -> (r: Error)
        ensures
            r == Error::Rc(ResponseCode::SystemError),
    {
        Error::Rc(ResponseCode::SystemError)
    }

    /// A permission-denied error.
    pub fn perm() -> (r: Error)
        ensures
            r == Error::Rc(ResponseCode::PermissionDenied),
    {
        Error::Rc(ResponseCode::PermissionDenied)
    }
}

/// Engine-reported set of enforced parameters at one security level.
#[derive(Debug)]
pub struct KeyCharacteristics {
    pub security_level: SecurityLevel,
    pub authorizations: Vec<KeyParameter>,
}

/// Mathematical view of one characteristics entry.
pub struct CharacteristicsView {
    pub security_level: SecurityLevel,
    pub authorizations: Seq<ParamView>,
}

impl View for KeyCharacteristics {
    type V = CharacteristicsView;

    open spec fn view(&self) -> CharacteristicsView {
        CharacteristicsView {
            security_level: self.security_level,
            authorizations: params_view(self.authorizations@),
        }
    }
}

/// A single certificate as returned by an engine.
#[derive(Debug)]
pub struct Certificate {
    pub encoded_certificate: Vec<u8>,
}

impl View for Certificate {
    type V = Seq<u8>;

    open spec fn view(&self) -> Seq<u8> {
        self.encoded_certificate@
    }
}

impl Clone for Certificate {
    fn clone(&self) -> (r: Self)
        ensures
            r@ == self@,
    {
        let c = self.encoded_certificate.clone();
        proof {
            assert(c@ =~= self.encoded_certificate@);
        }
        Certificate { encoded_certificate: c }
    }
}

/// What an engine returns from a successful generate or import call.
#[derive(Debug)]
pub struct KeyCreationResult {
    pub key_blob: Vec<u8>,
    pub key_characteristics: Vec<KeyCharacteristics>,
    pub certificate_chain: Vec<Certificate>,
}

/// The kind of authenticator a wrapped key may be bound to.
#[derive(Clone, Copy, Debug, PartialEq, Eq, Structural)]
pub enum HardwareAuthenticatorType {
    NoAuth,
    Password,
    Fingerprint,
}

/// Binds a wrapped key to one authenticator instance.
#[derive(Clone, Copy, Debug, PartialEq, Eq, Structural)]
pub struct AuthenticatorSpec {
    pub authenticator_type: HardwareAuthenticatorType,
    pub authenticator_id: i64,
}

/// A hardware-backed authorization token bound to an operation.
#[derive(Clone, Copy, Debug, PartialEq, Eq, Structural)]
pub struct HardwareAuthToken {
    pub challenge: i64,
    pub user_id: i64,
    pub authenticator_id: i64,
}

/// What an engine returns from a successful `begin` call: a challenge, an
/// engine-issued reference to the live operation, and any engine-suggested
/// follow-up parameters.
#[derive(Debug)]
pub struct BeginResult {
    pub challenge: i64,
    pub operation: Option<u64>,
    pub params: Vec<KeyParameter>,
}

/// A key parameter together with the security level that enforces it: the
/// internal representation persisted alongside a key.
#[derive(Debug)]
pub struct InternalParam {
    pub param: KeyParameter,
    pub security_level: SecurityLevel,
}

/// Mathematical view of an internal parameter.
pub struct InternalParamView {
    pub param: ParamView,
    pub security_level: SecurityLevel,
}

impl View for InternalParam {
    type V = InternalParamView;

    open spec fn view(&self) -> InternalParamView {
        InternalParamView { param: self.param@, security_level: self.security_level }
    }
}

/// The views of a list of internal parameters.
pub open spec fn internal_params_view(ps: Seq<InternalParam>) -> Seq<InternalParamView> {
    ps.map_values(|p: InternalParam| p@)
}

/// Whether some parameter carries the given tag.
pub open spec fn spec_has_tag(params: Seq<ParamView>, tag: Tag) -> bool {
    exists|i: int| 0 <= i < params.len() && params[i].tag == tag
}

/// The first parameter carrying the given tag.
pub open spec fn spec_find_tag(params: Seq<ParamView>, tag: Tag) -> Option<ParamView>
    decreases params.len(),
{
    if params.len() == 0 {
        None
    } else if params[0].tag == tag {
        Some(params[0])
    } else {
        spec_find_tag(params.drop_first(), tag)
    }
}

/// The search finds a parameter exactly when one carries the tag, and what
/// it finds is the first such parameter.
pub proof fn lemma_find_tag_sound(params: Seq<ParamView>, tag: Tag)
    ensures
        spec_find_tag(params, tag) is Some <==> spec_has_tag(params, tag),
        spec_find_tag(params, tag) matches Some(p) ==> exists|i: int|
            0 <= i < params.len() && params[i] == p && params[i].tag == tag && forall|j: int|
                0 <= j < i ==> params[j].tag != tag,
    decreases params.len(),
{
    if params.len() > 0 {
        lemma_find_tag_sound(params.drop_first(), tag)  ;
        if params[0].tag == tag {
            assert(spec_has_tag(params, tag));
        } else {
            assert forall|j: int| 1 <= j < params.len() implies params.drop_first()[j - 1]
                == params[j] by {}
            if spec_has_tag(params, tag) {
                let i = choose|i: int| 0 <= i < params.len() && params[i].tag == tag;
                assert(params.drop_first()[i - 1].tag == tag);
                assert(spec_has_tag(params.drop_first(), tag));
            }
            match spec_find_tag(params.drop_first(), tag) {
                Some(p) => {
                    let i = choose|i: int|
                        0 <= i < params.drop_first().len() && params.drop_first()[i] == p
                            && params.drop_first()[i].tag == tag && forall|j: int|
                            0 <= j < i ==> params.drop_first()[j].tag != tag;
                    assert(params[i + 1] == p);
                    assert(forall|j: int| 0 <= j < i + 1 ==> params[j].tag != tag);
                },
                None => {},
            }
        }
    }
}

/// Decides whether some parameter carries the given tag.
pub fn has_tag(params: &Vec<KeyParameter>, tag: Tag) -> (r: bool)
    ensures
        r == spec_has_tag(params_view(params@), tag),
{
    let ghost pv = params_view(params@);
    let mut i: usize = 0;
    while i < params.len()
        invariant
            i <= params@.len(),
            pv == params_view(params@),
            forall|k: int| 0 <= k < i ==> pv[k].tag != tag,
        decreases params@.len() - i,
    {
        if params[i].tag == tag {
            assert(pv[i as int].tag == tag);
            return true;
        }
        i += 1;
    }
    false
}

/// The index of the first parameter carrying the given tag.
pub fn find_tag_index(params: &Vec<KeyParameter>, tag: Tag) -> (r: Option<usize>)
    ensures
        match r {
            Some(i) => i < params@.len() && params_view(params@)[i as int].tag == tag
                && spec_find_tag(params_view(params@), tag) == Some(
                params_view(params@)[i as int],
            ),
            None => !spec_has_tag(params_view(params@), tag),
        },
{
    let ghost pv = params_view(params@);
    let mut i: usize = 0;
    while i < params.len()
        invariant
            i <= params@.len(),
            pv == params_view(params@),
            forall|k: int| 0 <= k < i ==> pv[k].tag != tag,
        decreases params@.len() - i,
    {
        if params[i].tag == tag {
            proof {
                assert(pv[i as int].tag == tag);
                lemma_find_tag_sound(pv, tag);
                assert(spec_has_tag(pv, tag));
                let p = spec_find_tag(pv, tag).unwrap();
                let k = choose|k: int|
                    0 <= k < pv.len() && pv[k] == p && pv[k].tag == tag && forall|j: int|
                        0 <= j < k ==> pv[j].tag != tag;
                if k < i as int {
                    assert(pv[k].tag != tag);
                }
                if k > i as int {
                    assert(pv[i as int].tag != tag);
                }
                assert(k == i as int);
            }
            return Some(i);
        }
        i += 1;
    }
    proof {
        if spec_has_tag(pv, tag) {
            let k = choose|k: int| 0 <= k < pv.len() && pv[k].tag == tag;
            assert(pv[k].tag != tag);
        }
    }
    None
}

/// Copies a parameter list.
pub fn clone_params(params: &Vec<KeyParameter>) -> (r: Vec<KeyParameter>)
    ensures
        params_view(r@) == params_view(params@),
{
    let mut r: Vec<KeyParameter> = Vec::new();
    let mut i: usize = 0;
    while i < params.len()
        invariant
            i <= params@.len(),
            r@.len() == i,
            forall|k: int| 0 <= k < i ==> #[trigger] r@[k]@ == params@[k]@,
        decreases params@.len() - i,
    {
        r.push(params[i].clone());
        i += 1;
    }
    proof {
        assert(params_view(r@) =~= params_view(params@));
    }
    r
}

/// True of tags that attest a device identifier; requesting one demands a
/// dedicated permission.
pub open spec fn spec_is_device_id_attestation_tag(tag: Tag) -> bool {
    ||| tag == Tag::AttestationIdBrand
    ||| tag == Tag::AttestationIdDevice
    ||| tag == Tag::AttestationIdProduct
    ||| tag == Tag::AttestationIdSerial
    ||| tag == Tag::AttestationIdImei
    ||| tag == Tag::AttestationIdMeid
    ||| tag == Tag::AttestationIdManufacturer
    ||| tag == Tag::AttestationIdModel
}

/// Decides whether `tag` attests a device identifier.
pub fn is_device_id_attestation_tag(tag: Tag) -> (r: bool)
    ensures
        r == spec_is_device_id_attestation_tag(tag),
{
    match tag {
        Tag::AttestationIdBrand => true,
        Tag::AttestationIdDevice => true,
        Tag::AttestationIdProduct => true,
        Tag::AttestationIdSerial => true,
        Tag::AttestationIdImei => true,
        Tag::AttestationIdMeid => true,
        Tag::AttestationIdManufacturer => true,
        Tag::AttestationIdModel => true,
        _ => false,
    }
}

/// Flattens engine-reported characteristics into internal parameters, each
/// tagged with the security level that enforces it.
pub open spec fn spec_characteristics_to_internal(cs: Seq<CharacteristicsView>) -> Seq<
    InternalParamView,
>
    decreases cs.len(),
{
    if cs.len() == 0 {
        Seq::empty()
    } else {
        spec_level_params(cs[0]) + spec_characteristics_to_internal(cs.drop_first())
    }
}

/// The internal parameters contributed by one characteristics entry.
pub open spec fn spec_level_params(c: CharacteristicsView) -> Seq<InternalParamView> {
    c.authorizations.map_values(
        |p: ParamView| (InternalParamView { param: p, security_level: c.security_level }),
    )
}

/// The views of a list of characteristics entries.
pub open spec fn characteristics_view(cs: Seq<KeyCharacteristics>) -> Seq<CharacteristicsView> {
    cs.map_values(|c: KeyCharacteristics| c@)
}

/// Converts engine-reported characteristics into the internal parameter list.
pub fn key_characteristics_to_internal(key_characteristics: Vec<KeyCharacteristics>) -> (r: Vec<
    InternalParam,
>)
    ensures
        internal_params_view(r@) == spec_characteristics_to_internal(
            characteristics_view(key_characteristics@),
        ),
{
    let ghost cvs = characteristics_view(key_characteristics@);
    let mut r: Vec<InternalParam> = Vec::new();
    let mut i: usize = 0;
    while i < key_characteristics.len()
        invariant
            i <= key_characteristics.len(),
            cvs == characteristics_view(key_characteristics@),
            internal_params_view(r@) == spec_characteristics_to_internal(cvs.take(i as int)),
        decreases key_characteristics.len() - i,
    {
        let c = &key_characteristics[i];
        let ghost cv = cvs[i as int];
        proof {
            assert(cv == key_characteristics@[i as int]@);
            assert(cv.authorizations == params_view(c.authorizations@));
        }
        let mut j: usize = 0;
        while j < c.authorizations.len()
            invariant
                j <= c.authorizations.len(),
                i < key_characteristics.len(),
                c == key_characteristics@[i as int],
                cv == key_characteristics@[i as int]@,
                cvs == characteristics_view(key_characteristics@),
                internal_params_view(r@) == spec_characteristics_to_internal(cvs.take(i as int))
                    + spec_level_params(cv).take(j as int),
            decreases c.authorizations.len() - j,
        {
            let ghost prev_r = r@;
            r.push(
                InternalParam {
                    param: c.authorizations[j].clone(),
                    security_level: c.security_level,
                },
            );
            j += 1;
            proof {
                let pushed = r@.last();
                assert(r@ =~= prev_r.push(pushed));
                assert(pushed@ == (InternalParamView {
                    param: c.authorizations@[j - 1]@,
                    security_level: c.security_level,
                }));
                assert(spec_level_params(cv)[j - 1] == (InternalParamView {
                    param: c.authorizations@[j - 1]@,
                    security_level: c.security_level,
                }));
                assert(internal_params_view(r@) =~= internal_params_view(prev_r).push(pushed@));
                assert(internal_params_view(r@) =~= (spec_characteristics_to_internal(
                    cvs.take(i as int),
                ) + spec_level_params(cv).take(j - 1int)).push(spec_level_params(cv)[j - 1int]));
                assert((spec_characteristics_to_internal(cvs.take(i as int)) + spec_level_params(
                    cv,
                ).take(j - 1int)).push(spec_level_params(cv)[j - 1int])
                    =~= spec_characteristics_to_internal(cvs.take(i as int)) + spec_level_params(
                    cv,
                ).take(j as int));
            }
        }
        i += 1;
        proof {
            assert(spec_level_params(cv).take(c.authorizations@.len() as int) =~= spec_level_params(
                cv,
            ));
            lemma_characteristics_to_internal_step(cvs, i as int);
        }
    }
    proof {
        assert(cvs.take(key_characteristics@.len() as int) =~= cvs);
    }
    r
}

/// Taking one more characteristics entry appends exactly that entry's
/// parameters.
proof fn lemma_characteristics_to_internal_step(cs: Seq<CharacteristicsView>, i: int)
    requires
        0 < i <= cs.len(),
    ensures
        spec_characteristics_to_internal(cs.take(i)) == spec_characteristics_to_internal(
            cs.take(i - 1),
        ) + spec_level_params(cs[i - 1]),
    decreases i,
{
    let pre = cs.take(i);
    if i == 1 {
        assert(pre.drop_first() =~= cs.take(0));
        assert(spec_characteristics_to_internal(cs.take(0)) == Seq::<InternalParamView>::empty());
        assert(spec_characteristics_to_internal(pre) == spec_level_params(pre[0])
            + spec_characteristics_to_internal(pre.drop_first()));
        assert(spec_level_params(cs[0]) + Seq::<InternalParamView>::empty() =~= spec_level_params(
            cs[0],
        ));
        assert(Seq::<InternalParamView>::empty() + spec_level_params(cs[0]) =~= spec_level_params(
            cs[0],
        ));
    } else {
        assert(pre[0] == cs[0]);
        assert(pre.drop_first() =~= cs.drop_first().take(i - 1));
        lemma_characteristics_to_internal_step(cs.drop_first(), i - 1);
        assert(cs.drop_first()[i - 2] == cs[i - 1]);
        assert(cs.take(i - 1).drop_first() =~= cs.drop_first().take(i - 2));
        assert(spec_characteristics_to_internal(cs.take(i - 1)) == spec_level_params(cs[0])
            + spec_characteristics_to_internal(cs.drop_first().take(i - 2)));
        assert(spec_level_params(cs[0]) + (spec_characteristics_to_internal(
            cs.drop_first().take(i - 2),
        ) + spec_level_params(cs[i - 1])) =~= (spec_level_params(cs[0])
            + spec_characteristics_to_internal(cs.drop_first().take(i - 2))) + spec_level_params(
            cs[i - 1],
        ));
    }
}

} // verus!
