//! Which tokens a session accepts.
#[allow(unused_imports)]
use super::{may_rebind, observes, observes_command};
#[allow(unused_imports)]
use crate::message::{token_valid, ContextAction, ContextToken};
use vstd::prelude::*;

verus! {

/// A session accepts the same context of the same life of its connection, at its generation
/// or a later one, and nothing else; with every part of the token set.
pub proof fn law_bound_session_accepts_its_own_context(
    current: ContextToken,
    next: ContextToken,
    action: ContextAction,
)
    requires
        action != ContextAction::Focus,
    ensures
        observes(Some(current), Some(next)) <==> next.context_id == current.context_id
            && next.connection_epoch == current.connection_epoch && next.generation
            >= current.generation && next.context_id != 0 && next.connection_epoch != 0
            && next.generation != 0,
        observes_command(Some(current), Some(next), action) <==> observes(
            Some(current),
            Some(next),
        ),
{
}

/// A focus may bind a session to another context, of the same life of the connection and no
/// older generation.
pub proof fn law_focus_may_bind_anew(current: ContextToken, next: ContextToken)
    requires
        next.context_id != 0,
        next.generation != 0,
        next.connection_epoch == current.connection_epoch,
        next.generation >= current.generation,
    ensures
        observes_command(Some(current), Some(next), ContextAction::Focus),
{
}

/// A token is valid exactly where all of its parts are set.
pub proof fn law_valid_tokens_are_complete(token: ContextToken)
    ensures
        token_valid(Some(token)) <==> token.context_id != 0 && token.connection_epoch != 0
            && token.generation != 0,
        !token_valid(None),
{
}

} // verus!
