//! Policy-check primitives: contexts, class permissions and access checks.
//!
//! The platform's policy database is outside this library; a loaded policy
//! is handed in as an explicit set of allow rules, and the access decision
//! over it is verified.  Permission constants of the key class implement
//! `ClassPermission` so that checks name their class and permission
//! uniformly.

use vstd::prelude::*;
use vstd::string::StrSliceExecFns;

verus! {

/// Result of a policy check.
#[derive(Debug, PartialEq, Eq)]
pub enum Error {
    /// The access check yielded no access.
    PermissionDenied,
    /// An unexpected system error; the string carries detail.
    SystemError(String),
}

impl Error {
    /// A denied access.
    pub fn perm() -> (r: Self)
        ensures
            r is PermissionDenied,
    {
        Error::PermissionDenied
    }

    /// An unexpected system error.
    pub fn sys(s: String) -> (r: Self)
        ensures
            r matches Error::SystemError(m) && m@ == s@,
    {
        Error::SystemError(s)
    }
}

/// A security context string, such as a process or key label.
#[derive(Debug)]
pub struct Context {
    context: String,
}

impl View for Context {
    type V = Seq<char>;

    closed spec fn view(&self) -> Seq<char> {
        self.context@
    }
}

/// Whether a context string holds an interior NUL character, which the
/// platform's context strings cannot carry.
pub open spec fn spec_has_nul(s: Seq<char>) -> bool {
    exists|i: int| 0 <= i < s.len() && s[i] == '\0'
}

impl Context {
    /// Wraps a context string.  A context travels to the platform as a
    /// C string, so a string holding an interior NUL is refused.
    pub fn new(con: &str) -> (r: Result<Self, Error>)
        ensures
            !spec_has_nul(con@) <==> r is Ok,
            r matches Ok(c) ==> c@ == con@,
            r matches Err(e) ==> e is SystemError,
    {
        let len = con.unicode_len();
        let mut i: usize = 0;
        while i < len
            invariant
                i <= len,
                len == con@.len(),
                forall|k: int| 0 <= k < i ==> con@[k] != '\0',
            decreases len - i,
        {
            if con.get_char(i) == '\0' {
                assert(spec_has_nul(con@));
                return Err(Error::SystemError("context holds an interior NUL".to_owned()));
            }
            i += 1;
        }
        Ok(Context { context: con.to_owned() })
    }

    /// The context string.
    pub fn as_str(&self) -> (r: &str)
        ensures
            r@ == self@,
    {
        self.context.as_str()
    }
}

/// A policy permission belonging to a specific class.
pub trait ClassPermission {
    /// The permission string, as the policy names it.
    spec fn spec_name(&self) -> Seq<char>;

    /// The class the permission belongs to.
    spec fn spec_class_name(&self) -> Seq<char>;

    /// The permission string of this instance.
    fn name(&self) -> (r: &'static str)
        ensures
            r@ == self.spec_name(),
    ;

    /// The class of this permission.
    fn class_name(&self) -> (r: &'static str)
        ensures
            r@ == self.spec_class_name(),
    ;
}

/// The permissions of the key class.
#[derive(Clone, Copy, Debug, PartialEq, Eq, Structural)]
pub enum KeyPerm {
    Delete,
    GenUniqueId,
    GetInfo,
    Grant,
    ManageBlob,
    Rebind,
    ReqForcedOp,
    Update,
    Use,
    UseDevId,
    ConvertStorageKeyToEphemeral,
}

impl ClassPermission for KeyPerm {
    open spec fn spec_name(&self) -> Seq<char> {
        match self {
            KeyPerm::Delete => "delete"@,
            KeyPerm::GenUniqueId => "gen_unique_id"@,
            KeyPerm::GetInfo => "get_info"@,
            KeyPerm::Grant => "grant"@,
            KeyPerm::ManageBlob => "manage_blob"@,
            KeyPerm::Rebind => "rebind"@,
            KeyPerm::ReqForcedOp => "req_forced_op"@,
            KeyPerm::Update => "update"@,
            KeyPerm::Use => "use"@,
            KeyPerm::UseDevId => "use_dev_id"@,
            KeyPerm::ConvertStorageKeyToEphemeral => "convert_storage_key_to_ephemeral"@,
        }
    }

    open spec fn spec_class_name(&self) -> Seq<char> {
        "keystore2_key"@
    }

    fn name(&self) -> (r: &'static str)
        ensures
            r@ == self.spec_name(),
    {
        match self {
            KeyPerm::Delete => "delete",
            KeyPerm::GenUniqueId => "gen_unique_id",
            KeyPerm::GetInfo => "get_info",
            KeyPerm::Grant => "grant",
            KeyPerm::ManageBlob => "manage_blob",
            KeyPerm::Rebind => "rebind",
            KeyPerm::ReqForcedOp => "req_forced_op",
            KeyPerm::Update => "update",
            KeyPerm::Use => "use",
            KeyPerm::UseDevId => "use_dev_id",
            KeyPerm::ConvertStorageKeyToEphemeral => "convert_storage_key_to_ephemeral",
        }
    }

    fn class_name(&self) -> (r: &'static str)
        ensures
            r@ == self.spec_class_name(),
    {
        "keystore2_key"
    }
}

/// One allow rule of a loaded policy.
#[derive(Debug)]
pub struct PolicyRule {
    pub source: String,
    pub target: String,
    pub tclass: String,
    pub perm: String,
}

/// Mathematical view of an allow rule.
pub struct PolicyRuleView {
    pub source: Seq<char>,
    pub target: Seq<char>,
    pub tclass: Seq<char>,
    pub perm: Seq<char>,
}

impl View for PolicyRule {
    type V = PolicyRuleView;

    open spec fn view(&self) -> PolicyRuleView {
        PolicyRuleView {
            source: self.source@,
            target: self.target@,
            tclass: self.tclass@,
            perm: self.perm@,
        }
    }
}

/// A loaded policy: the set of allow rules the platform granted.
#[derive(Debug)]
pub struct PolicySet {
    rules: Vec<PolicyRule>,
}

/// Whether the policy allows `source` the permission `perm` of class
/// `tclass` on `target`.
pub open spec fn spec_allows(
    rules: Seq<PolicyRuleView>,
    source: Seq<char>,
    target: Seq<char>,
    tclass: Seq<char>,
    perm: Seq<char>,
) -> bool {
    exists|i: int|
        0 <= i < rules.len() && {
            let rule = #[trigger] rules[i];
            &&& rule.source == source
            &&& rule.target == target
            &&& rule.tclass == tclass
            &&& rule.perm == perm
        }
}

impl PolicySet {
    /// The loaded rules.
    pub closed spec fn spec_rules(&self) -> Seq<PolicyRuleView> {
        self.rules@.map_values(|r: PolicyRule| r@)
    }

    /// Wraps a loaded set of allow rules.
    pub fn new(rules: Vec<PolicyRule>) -> (r: PolicySet)
        ensures
            r.spec_rules() == rules@.map_values(|rl: PolicyRule| rl@),
    {
        PolicySet { rules }
    }
}

/// Checks an access against the loaded policy.
///
/// Grants exactly when a rule allows `source` the permission `perm` of
/// class `tclass` on `target`; anything else is a denied permission.
pub fn check_access(
    policy: &PolicySet,
    source: &Context,
    target: &Context,
    tclass: &str,
    perm: &str,
) -> (r: Result<(), Error>)
    ensures
        r is Ok <==> spec_allows(policy.spec_rules(), source@, target@, tclass@, perm@),
        r matches Err(e) ==> e is PermissionDenied,
{
    let ghost rules = policy.spec_rules();
    let source_owned = source.as_str().to_owned();
    let target_owned = target.as_str().to_owned();
    let tclass_owned = tclass.to_owned();
    let perm_owned = perm.to_owned();
    let mut i: usize = 0;
    while i < policy.rules.len()
        invariant
            i <= policy.rules@.len(),
            rules == policy.spec_rules(),
            source_owned@ == source@,
            target_owned@ == target@,
            tclass_owned@ == tclass@,
            perm_owned@ == perm@,
            forall|k: int|
                0 <= k < i ==> !{
                    let rule = #[trigger] rules[k];
                    &&& rule.source == source@
                    &&& rule.target == target@
                    &&& rule.tclass == tclass@
                    &&& rule.perm == perm@
                },
        decreases policy.rules@.len() - i,
    {
        let rule = &policy.rules[i];
        if rule.source == source_owned && rule.target == target_owned && rule.tclass
            == tclass_owned && rule.perm == perm_owned {
            proof {
                assert(rules[i as int].source == source@);
            }
            return Ok(());
        }
        i += 1;
    }
    Err(Error::PermissionDenied)
}

/// Checks the given class permission against the loaded policy.
pub fn check_permission<T: ClassPermission>(
    policy: &PolicySet,
    source: &Context,
    target: &Context,
    perm: &T,
) -> (r: Result<(), Error>)
    ensures
        r is Ok <==> spec_allows(
            policy.spec_rules(),
            source@,
            target@,
            perm.spec_class_name(),
            perm.spec_name(),
        ),
        r matches Err(e) ==> e is PermissionDenied,
{
    check_access(policy, source, target, perm.class_name(), perm.name())
}

} // verus!
