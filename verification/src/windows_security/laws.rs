//! Who may use an object, and which tokens give an identity.
#[allow(unused_imports)]
use super::{
    input_sddl, logon_sddl, token_fault, valid_component, IdentityView, SecurityError, TokenFacts,
    SE_GROUP_LOGON_ID,
};
use vstd::prelude::*;

verus! {

/// The objects of a logon session give rights to that session, whatever else differs: two
/// sessions of one user have different rules, and so have two users.
pub proof fn law_rules_name_the_session(a: IdentityView, b: IdentityView)
    ensures
        a.user_sid == b.user_sid && logon_sddl(a) == logon_sddl(b) ==> a.logon_sid == b.logon_sid,
        a.logon_sid == b.logon_sid && logon_sddl(a) == logon_sddl(b) ==> a.user_sid == b.user_sid,
{
    let middle = "D:P(D;;GA;;;NU)(A;;GA;;;"@;
    if logon_sddl(a) == logon_sddl(b) {
        let n = "O:"@.len() as int;
        if a.user_sid == b.user_sid {
            let k = n + a.user_sid.len() + middle.len();
            assert(logon_sddl(a).subrange(k, logon_sddl(a).len() - ")"@.len())
                =~= a.logon_sid);
            assert(logon_sddl(b).subrange(k, logon_sddl(b).len() - ")"@.len())
                =~= b.logon_sid);
        }
        if a.logon_sid == b.logon_sid {
            assert(a.user_sid.len() == b.user_sid.len());
            assert(logon_sddl(a).subrange(n, n + a.user_sid.len()) =~= a.user_sid);
            assert(logon_sddl(b).subrange(n, n + b.user_sid.len()) =~= b.user_sid);
        }
    }
}

/// The input pipe's rules are the user's, in whatever session: they are the same for one
/// user and differ between users of equally long names.
pub proof fn law_input_pipe_belongs_to_the_user(a: IdentityView, b: IdentityView)
    ensures
        a.user_sid == b.user_sid ==> input_sddl(a) == input_sddl(b),
        a.user_sid.len() == b.user_sid.len() && input_sddl(a) == input_sddl(b) ==> a.user_sid
            == b.user_sid,
{
    if a.user_sid.len() == b.user_sid.len() && input_sddl(a) == input_sddl(b) {
        let n = "O:"@.len() as int;
        assert(input_sddl(a).subrange(n, n + a.user_sid.len()) =~= a.user_sid);
        assert(input_sddl(b).subrange(n, n + b.user_sid.len()) =~= b.user_sid);
    }
}

/// A token gives an identity exactly where its user could be read and its one group is that
/// of the logon session.
pub proof fn law_token_needs_one_logon_group(facts: TokenFacts)
    ensures
        token_fault(facts) is None <==> facts.user_bytes >= facts.user_needed && facts.group_bytes
            >= facts.group_needed && facts.group_count == 1 && facts.group_attributes
            & SE_GROUP_LOGON_ID == SE_GROUP_LOGON_ID,
        facts.user_bytes < facts.user_needed ==> token_fault(facts) == Some(
            SecurityError::TruncatedTokenUser,
        ),
        facts.user_bytes >= facts.user_needed && facts.group_bytes < facts.group_needed
            ==> token_fault(facts) == Some(SecurityError::NoLogonSid),
{
}

/// What can name a component has up to 64 characters; its parts can too, and names can be
/// put together as long as they are short enough. No separator of paths is among them.
pub proof fn law_names_are_made_of_names(a: Seq<char>, b: Seq<char>)
    ensures
        valid_component(a + b) && a.len() > 0 ==> valid_component(a),
        valid_component(a) && valid_component(b) && a.len() + b.len() <= 64 ==> valid_component(
            a + b,
        ),
        a.len() == 0 || a.len() > 64 ==> !valid_component(a),
        a.contains('\\') || a.contains('/') || a.contains('.') || a.contains(' ')
            || a.contains('\0') ==> !valid_component(a),
        a.len() == 1 && ('a' <= a[0] <= 'z' || 'A' <= a[0] <= 'Z' || '0' <= a[0] <= '9' || a[0]
            == '-' || a[0] == '_') ==> valid_component(a),
{
    if valid_component(a + b) && a.len() > 0 {
        assert forall|i: int| 0 <= i < a.len() implies super::component_char(#[trigger] a[i]) by {
            assert((a + b)[i] == a[i]);
        }
    }
}

} // verus!
