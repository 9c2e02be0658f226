//! Names and access rules of the objects that belong to one logon session.
use crate::text::{join2, join3};
use vstd::prelude::*;

pub mod laws;

verus! {

/// Marks a token group as the logon session's.
pub const SE_GROUP_LOGON_ID: u32 = 0xC000_0000;

/// Why a name or an identity cannot be had.
#[derive(Clone, Copy, Debug, PartialEq, Eq, Structural)]
pub enum SecurityError {
    /// The component cannot stand in an object's name.
    InvalidComponent,
    TruncatedTokenUser,
    NoLogonSid,
    NoUniqueLogonSid,
}

impl SecurityError {
    /// The error in words.
    pub fn message(&self) -> (r: &'static str)
        ensures
            r@ == match *self {
                SecurityError::InvalidComponent =>
                    "component must be 1..64 ASCII letters, digits, hyphens or underscores"@,
                SecurityError::TruncatedTokenUser => "truncated TokenUser"@,
                SecurityError::NoLogonSid => "process token has no logon SID"@,
                SecurityError::NoUniqueLogonSid => "process token has no unique logon SID"@,
            },
    {
        match self {
            SecurityError::InvalidComponent =>
                "component must be 1..64 ASCII letters, digits, hyphens or underscores",
            SecurityError::TruncatedTokenUser => "truncated TokenUser",
            SecurityError::NoLogonSid => "process token has no logon SID",
            SecurityError::NoUniqueLogonSid => "process token has no unique logon SID",
        }
    }
}

/// Whether a character may stand in a component's name.
pub open spec fn component_char(c: char) -> bool {
    ('0' <= c && c <= '9') || ('A' <= c && c <= 'Z') || ('a' <= c && c <= 'z') || c == '-' || c
        == '_'
}

/// Whether a text can name a component: one to 64 ASCII letters, digits, hyphens
/// and underscores.
pub open spec fn valid_component(component: Seq<char>) -> bool {
    1 <= component.len() <= 64 && forall|i: int|
        0 <= i < component.len() ==> component_char(#[trigger] component[i])
}

/// Whether a byte may stand in a component's name.
fn component_byte(b: u8) -> (r: bool)
    ensures
        r == (b < 128 && component_char(b as char)),
{
    (48 <= b && b <= 57) || (65 <= b && b <= 90) || (97 <= b && b <= 122) || b == 45 || b == 95
}

/// Checks a component's name before it becomes part of an object's name.
pub fn validate_component(component: &str) -> (r: Result<(), SecurityError>)
    ensures
        r == (if valid_component(component@) {
            Ok(())
        } else {
            Err(SecurityError::InvalidComponent)
        }),
{
    if !component.is_ascii() {
        proof {
            if valid_component(component@) {
                assert forall|i: int| 0 <= i < component@.len() implies 0
                    <= (#[trigger] component@[i]) as nat && (component@[i] as nat) < 128 by {
                    assert(component_char(component@[i]));
                }
                assert(vstd::utf8::is_ascii_chars(component@));
            }
        }
        return Err(SecurityError::InvalidComponent);
    }
    let bytes: &[u8] = component.as_bytes();
    proof {
        vstd::utf8::is_ascii_chars_encode_utf8(component@);
    }
    if bytes.len() == 0 || bytes.len() > 64 {
        return Err(SecurityError::InvalidComponent);
    }
    let mut i: usize = 0;
    while i < bytes.len()
        invariant
            i <= bytes.len(),
            bytes@ == Seq::new(component@.len(), |j: int| component@[j] as u8),
            vstd::utf8::is_ascii_chars(component@),
            forall|j: int| 0 <= j < i ==> component_char(#[trigger] component@[j]),
        decreases bytes.len() - i,
    {
        let b: u8 = bytes[i];
        assert(b == component@[i as int] as u8);
        assert((component@[i as int] as nat) < 128);
        if !component_byte(b) {
            assert(!component_char(component@[i as int]));
            return Err(SecurityError::InvalidComponent);
        }
        i += 1;
    }
    Ok(())
}

/// What was read of a process token.
pub struct TokenFacts {
    /// Bytes that were read of the user, and that a user needs at least.
    pub user_bytes: usize,
    pub user_needed: usize,
    pub user_sid: String,
    /// Bytes that were read of the logon groups, and that they need at least.
    pub group_bytes: usize,
    pub group_needed: usize,
    pub group_count: u32,
    /// Attributes of the first group.
    pub group_attributes: u32,
    pub group_sid: String,
}

/// The user and the logon session that a process belongs to. Two sessions of
/// one user have different logon SIDs, and so do not share objects.
#[derive(Debug, PartialEq, Eq)]
pub struct RuntimeIdentity {
    user_sid: String,
    logon_sid: String,
}

#[verifier::ext_equal]
pub ghost struct IdentityView {
    pub user_sid: Seq<char>,
    pub logon_sid: Seq<char>,
}

impl View for RuntimeIdentity {
    type V = IdentityView;

    closed spec fn view(&self) -> IdentityView {
        IdentityView { user_sid: self.user_sid@, logon_sid: self.logon_sid@ }
    }
}

impl Clone for RuntimeIdentity {
    fn clone(&self) -> (r: Self)
        ensures
            r@ == self@,
    {
        RuntimeIdentity { user_sid: self.user_sid.clone(), logon_sid: self.logon_sid.clone() }
    }
}

/// What the objects of one component are called, after their prefix.
pub open spec fn object_suffix(identity: IdentityView, component: Seq<char>) -> Seq<char> {
    "weasel-rs-"@ + component + "-"@ + identity.user_sid + "-"@ + identity.logon_sid
}

/// The rights of a logon session's own objects: the network has none, the
/// session has all.
pub open spec fn logon_sddl(identity: IdentityView) -> Seq<char> {
    "O:"@ + identity.user_sid + "D:P(D;;GA;;;NU)(A;;GA;;;"@ + identity.logon_sid + ")"@
}

/// The rights of the input pipe: the network has none, and the owner none by
/// being the owner; the system, administrators, app packages and the user have
/// all, also from low integrity.
pub open spec fn input_sddl(identity: IdentityView) -> Seq<char> {
    "O:"@ + identity.user_sid
        + "D:P(D;;GA;;;NU)(A;;;;;OW)(A;;GA;;;SY)(A;;GA;;;BA)(A;;GA;;;AC)(A;;GA;;;"@
        + identity.user_sid + ")S:(ML;;NX;;;LW)"@
}

/// Why a token does not give an identity; none if it does.
pub open spec fn token_fault(facts: TokenFacts) -> Option<SecurityError> {
    if facts.user_bytes < facts.user_needed {
        Some(SecurityError::TruncatedTokenUser)
    } else if facts.group_bytes < facts.group_needed {
        Some(SecurityError::NoLogonSid)
    } else if facts.group_count != 1 || facts.group_attributes & SE_GROUP_LOGON_ID
        != SE_GROUP_LOGON_ID {
        Some(SecurityError::NoUniqueLogonSid)
    } else {
        None
    }
}

impl RuntimeIdentity {
    /// The identity of a user and a logon session.
    pub fn new(user_sid: String, logon_sid: String) -> (r: Self)
        ensures
            r@ == (IdentityView { user_sid: user_sid@, logon_sid: logon_sid@ }),
    {
        RuntimeIdentity { user_sid, logon_sid }
    }

    /// The identity that a process token gives: its user, and its only group,
    /// which must be the logon session's.
    pub fn current(facts: TokenFacts) -> (r: Result<Self, SecurityError>)
        ensures
            match token_fault(facts) {
                Some(fault) => r matches Err(error) && error == fault,
                None => r matches Ok(identity) && identity@ == (IdentityView {
                    user_sid: facts.user_sid@,
                    logon_sid: facts.group_sid@,
                }),
            },
    {
        if facts.user_bytes < facts.user_needed {
            return Err(SecurityError::TruncatedTokenUser);
        }
        if facts.group_bytes < facts.group_needed {
            return Err(SecurityError::NoLogonSid);
        }
        if facts.group_count != 1 || facts.group_attributes & SE_GROUP_LOGON_ID
            != SE_GROUP_LOGON_ID {
            return Err(SecurityError::NoUniqueLogonSid);
        }
        Ok(RuntimeIdentity { user_sid: facts.user_sid, logon_sid: facts.group_sid })
    }

    /// The SID of the user.
    pub fn user_sid(&self) -> (r: &str)
        ensures
            r@ == self@.user_sid,
    {
        self.user_sid.as_str()
    }

    /// The SID of the logon session.
    pub fn logon_sid(&self) -> (r: &str)
        ensures
            r@ == self@.logon_sid,
    {
        self.logon_sid.as_str()
    }

    /// What the objects of one component are called, after their prefix.
    pub fn suffix(&self, component: &str) -> (r: Result<String, SecurityError>)
        ensures
            match r {
                Ok(name) => valid_component(component@) && name@ == object_suffix(
                    self@,
                    component@,
                ),
                Err(error) => !valid_component(component@) && error
                    == SecurityError::InvalidComponent,
            },
    {
        match validate_component(component) {
            Ok(()) => {},
            Err(error) => return Err(error),
        }
        let head: String = join3("weasel-rs-", component, "-");
        let user: String = join3(head.as_str(), self.user_sid.as_str(), "-");
        Ok(join2(user.as_str(), self.logon_sid.as_str()))
    }

    /// The name of a component's mutex in this logon session.
    pub fn mutex_name(&self, component: &str) -> (r: Result<String, SecurityError>)
        ensures
            match r {
                Ok(name) => valid_component(component@) && name@ == "Local\\"@ + object_suffix(
                    self@,
                    component@,
                ),
                Err(error) => !valid_component(component@) && error
                    == SecurityError::InvalidComponent,
            },
    {
        match self.suffix(component) {
            Ok(name) => Ok(join2("Local\\", name.as_str())),
            Err(error) => Err(error),
        }
    }

    /// The path of a component's pipe in this logon session.
    pub fn pipe_name(&self, component: &str) -> (r: Result<String, SecurityError>)
        ensures
            match r {
                Ok(name) => valid_component(component@) && name@ == "\\\\.\\pipe\\"@
                    + object_suffix(self@, component@),
                Err(error) => !valid_component(component@) && error
                    == SecurityError::InvalidComponent,
            },
    {
        match self.suffix(component) {
            Ok(name) => Ok(join2("\\\\.\\pipe\\", name.as_str())),
            Err(error) => Err(error),
        }
    }
}

/// What an object is created with.
#[derive(Debug, PartialEq, Eq)]
pub struct SecurityAttributes {
    /// The access rules, in the security descriptor definition language.
    pub descriptor: String,
    pub inherit_handle: bool,
}

/// The access rules of an object.
#[derive(Debug, PartialEq, Eq)]
pub struct LocalSecurityDescriptor {
    sddl: String,
}

impl View for LocalSecurityDescriptor {
    type V = Seq<char>;

    closed spec fn view(&self) -> Seq<char> {
        self.sddl@
    }
}

impl LocalSecurityDescriptor {
    /// The rules of a pipe between processes of one logon session.
    pub fn for_named_pipe(identity: &RuntimeIdentity) -> (r: Self)
        ensures
            r@ == logon_sddl(identity@),
    {
        Self::for_logon(identity)
    }

    /// The rules of the pipe that hosts of any kind write their input to.
    pub fn for_input_pipe(identity: &RuntimeIdentity) -> (r: Self)
        ensures
            r@ == input_sddl(identity@),
    {
        let head: String = join3(
            "O:",
            identity.user_sid.as_str(),
            "D:P(D;;GA;;;NU)(A;;;;;OW)(A;;GA;;;SY)(A;;GA;;;BA)(A;;GA;;;AC)(A;;GA;;;",
        );
        LocalSecurityDescriptor {
            sddl: join3(head.as_str(), identity.user_sid.as_str(), ")S:(ML;;NX;;;LW)"),
        }
    }

    /// The rules of an object that only its own logon session may use.
    pub fn for_logon(identity: &RuntimeIdentity) -> (r: Self)
        ensures
            r@ == logon_sddl(identity@),
    {
        let head: String = join3(
            "O:",
            identity.user_sid.as_str(),
            "D:P(D;;GA;;;NU)(A;;GA;;;",
        );
        LocalSecurityDescriptor { sddl: join3(head.as_str(), identity.logon_sid.as_str(), ")") }
    }

    /// What an object with these rules is created with. Its handle is not
    /// inherited.
    pub fn security_attributes(&self) -> (r: SecurityAttributes)
        ensures
            r.descriptor@ == self@,
            !r.inherit_handle,
    {
        SecurityAttributes { descriptor: self.sddl.clone(), inherit_handle: false }
    }
}

/// Two logon sessions of one user never share an object's name, whatever prefix
/// the name has.
pub proof fn law_logon_sessions_have_their_own_names(
    user_sid: Seq<char>,
    one: Seq<char>,
    other: Seq<char>,
    component: Seq<char>,
    prefix: Seq<char>,
)
    requires
        one != other,
    ensures
        prefix + object_suffix(IdentityView { user_sid, logon_sid: one }, component) != prefix
            + object_suffix(IdentityView { user_sid, logon_sid: other }, component),
{
    let head = "weasel-rs-"@ + component + "-"@ + user_sid + "-"@;
    let a = prefix + object_suffix(IdentityView { user_sid, logon_sid: one }, component);
    let b = prefix + object_suffix(IdentityView { user_sid, logon_sid: other }, component);
    if a == b {
        let n = (prefix.len() + head.len()) as int;
        assert(a.subrange(n, a.len() as int) =~= one);
        assert(b.subrange(n, b.len() as int) =~= other);
    }
}

/// Two components of one logon session never share an object's name.
pub proof fn law_components_have_their_own_names(
    identity: IdentityView,
    one: Seq<char>,
    other: Seq<char>,
    prefix: Seq<char>,
)
    requires
        one != other,
    ensures
        prefix + object_suffix(identity, one) != prefix + object_suffix(identity, other),
{
    let tail = "-"@ + identity.user_sid + "-"@ + identity.logon_sid;
    let n = (prefix.len() + "weasel-rs-"@.len()) as int;
    let a = prefix + object_suffix(identity, one);
    let b = prefix + object_suffix(identity, other);
    if a == b {
        assert(a.len() == n + one.len() + tail.len());
        assert(b.len() == n + other.len() + tail.len());
        assert(a.subrange(n, n + one.len()) =~= one);
        assert(b.subrange(n, n + other.len()) =~= other);
    }
}

} // verus!
