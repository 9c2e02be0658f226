use weasel::windows_security::{
    LocalSecurityDescriptor, RuntimeIdentity, SecurityError, TokenFacts, SE_GROUP_LOGON_ID,
};

fn facts() -> TokenFacts {
    TokenFacts {
        user_bytes: 16,
        user_needed: 16,
        user_sid: "S-1-5-21-1-2-3-1001".to_owned(),
        group_bytes: 24,
        group_needed: 24,
        group_count: 1,
        group_attributes: SE_GROUP_LOGON_ID | 7,
        group_sid: "S-1-5-5-0-777".to_owned(),
    }
}

#[test]
fn identity_and_security() {
    let a = RuntimeIdentity::current(facts()).unwrap();
    assert_eq!(a, RuntimeIdentity::current(facts()).unwrap());
    assert!(a.pipe_name("server").unwrap().contains(a.logon_sid()));
    assert!(a.mutex_name("bad\\name").is_err());
    let descriptor = LocalSecurityDescriptor::for_named_pipe(&a);
    let attributes = descriptor.security_attributes();
    assert!(!attributes.descriptor.is_empty());
    let dacl = &attributes.descriptor[attributes.descriptor.find("D:").unwrap()..];
    assert_eq!(dacl, format!("D:P(D;;GA;;;NU)(A;;GA;;;{})", a.logon_sid()));
    let another_logon =
        RuntimeIdentity::new(a.user_sid().to_owned(), "S-1-5-5-123-456".to_owned());
    assert_ne!(
        a.pipe_name("server").unwrap(),
        another_logon.pipe_name("server").unwrap()
    );
    assert_ne!(
        a.mutex_name("server").unwrap(),
        another_logon.mutex_name("server").unwrap()
    );
}

#[test]
fn names_have_their_prefix_and_every_part() {
    let identity = RuntimeIdentity::new("S-1-5-21-7".to_owned(), "S-1-5-5-8".to_owned());
    assert_eq!(
        identity.pipe_name("server").unwrap(),
        "\\\\.\\pipe\\weasel-rs-server-S-1-5-21-7-S-1-5-5-8"
    );
    assert_eq!(
        identity.mutex_name("renderer-preview").unwrap(),
        "Local\\weasel-rs-renderer-preview-S-1-5-21-7-S-1-5-5-8"
    );
    assert_eq!(identity.suffix(""), Err(SecurityError::InvalidComponent));
}

#[test]
fn tokens_that_do_not_name_one_logon_session_are_refused() {
    let mut short = facts();
    short.user_bytes = 15;
    assert_eq!(
        RuntimeIdentity::current(short),
        Err(SecurityError::TruncatedTokenUser)
    );
    let mut groups = facts();
    groups.group_bytes = 3;
    assert_eq!(RuntimeIdentity::current(groups), Err(SecurityError::NoLogonSid));
    let mut two = facts();
    two.group_count = 2;
    assert_eq!(
        RuntimeIdentity::current(two),
        Err(SecurityError::NoUniqueLogonSid)
    );
    let mut other = facts();
    other.group_attributes = 7;
    assert_eq!(
        RuntimeIdentity::current(other),
        Err(SecurityError::NoUniqueLogonSid)
    );
}

#[test]
fn the_input_pipe_lets_low_integrity_hosts_in() {
    let identity = RuntimeIdentity::new("S-1-5-21-7".to_owned(), "S-1-5-5-8".to_owned());
    let descriptor = LocalSecurityDescriptor::for_input_pipe(&identity);
    let text = descriptor.security_attributes().descriptor;
    assert_eq!(
        text,
        "O:S-1-5-21-7D:P(D;;GA;;;NU)(A;;;;;OW)(A;;GA;;;SY)(A;;GA;;;BA)(A;;GA;;;AC)(A;;GA;;;S-1-5-21-7)S:(ML;;NX;;;LW)"
    );
    assert!(!descriptor.security_attributes().inherit_handle);
}
