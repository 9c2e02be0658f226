//! Which input context a session belongs to, and which operations it accepts.
use crate::message::{ContextAction, ContextToken, RendererEvent};
#[allow(unused_imports)]
use crate::message::token_valid;
use vstd::prelude::*;

pub mod laws;

verus! {

/// The token behind an optional reference.
pub open spec fn token_of(token: Option<&ContextToken>) -> Option<ContextToken> {
    match token {
        Some(t) => Some(*t),
        None => None,
    }
}

/// Whether a token may follow the one that a session is bound to: it is valid,
/// and it names the same context of the same connection, no older.
pub open spec fn observes(current: Option<ContextToken>, next: Option<ContextToken>) -> bool {
    token_valid(next) && (current matches Some(c) ==> c.context_id == next->0.context_id
        && c.connection_epoch == next->0.connection_epoch
        && next->0.generation >= c.generation)
}

/// Whether a focus command may move a bound session to another context: the
/// connection stays, and the generation does not go back.
pub open spec fn may_rebind(current: Option<ContextToken>, next: Option<ContextToken>) -> bool {
    current matches Some(c) && next matches Some(n) && n.context_id != 0 && c.connection_epoch
        == n.connection_epoch && n.generation >= c.generation && n.generation != 0
}

/// Whether a command is accepted: a focus may rebind, every other follows its token.
pub open spec fn observes_command(
    current: Option<ContextToken>,
    next: Option<ContextToken>,
    action: ContextAction,
) -> bool {
    (action == ContextAction::Focus && may_rebind(current, next)) || observes(current, next)
}

/// The context that a session is bound to, and whether it has the focus.
#[derive(Clone, Copy, Debug, PartialEq, Eq, Structural)]
pub struct SessionRoute {
    pub token: Option<ContextToken>,
    /// While false, nothing that comes from the renderer is accepted.
    pub focused: bool,
}

impl Default for SessionRoute {
    fn default() -> (r: Self)
        ensures
            r == (SessionRoute { token: None, focused: false }),
    {
        SessionRoute { token: None, focused: false }
    }
}

/// Whether a token names a context: none of its three parts is zero.
pub fn valid_token(token: Option<&ContextToken>) -> (r: bool)
    ensures
        r == token_valid(token_of(token)),
{
    match token {
        Some(t) => t.context_id != 0 && t.connection_epoch != 0 && t.generation != 0,
        None => false,
    }
}

impl SessionRoute {
    /// Binds the route to a token, or advances it; a token that may not follow
    /// is refused and leaves the route as it was.
    pub fn observe(&mut self, token: Option<&ContextToken>) -> (r: bool)
        ensures
            r == observes(old(self).token, token_of(token)),
            final(self).token == (if r { token_of(token) } else { old(self).token }),
            final(self).focused == old(self).focused,
    {
        if !valid_token(token) {
            return false;
        }
        match (self.token, token) {
            (None, Some(next)) => {
                self.token = Some(*next);
                true
            },
            (Some(current), Some(next)) => {
                if current.context_id == next.context_id && current.connection_epoch
                    == next.connection_epoch && next.generation >= current.generation {
                    self.token = Some(*next);
                    true
                } else {
                    false
                }
            },
            _ => false,
        }
    }

    /// As `observe`; a focus command may also move the route to another context
    /// of the same connection.
    pub fn observe_command(&mut self, token: Option<&ContextToken>, action: ContextAction) -> (r:
        bool)
        ensures
            r == observes_command(old(self).token, token_of(token), action),
            final(self).token == (if r { token_of(token) } else { old(self).token }),
            final(self).focused == old(self).focused,
    {
        if action == ContextAction::Focus {
            if let (Some(current), Some(next)) = (self.token, token) {
                if next.context_id != 0 && current.connection_epoch == next.connection_epoch
                    && next.generation >= current.generation && next.generation != 0 {
                    self.token = Some(*next);
                    return true;
                }
            }
        }
        self.observe(token)
    }

    /// Whether a renderer's event belongs to the focused context and was made
    /// on the session's latest state.
    pub fn accepts_ui(&self, event: &RendererEvent, revision: u64) -> (r: bool)
        ensures
            r == (self.focused && self.token == event.token && event.revision == revision),
    {
        self.focused && self.token == event.token && event.revision == revision
    }
}

/// The token of a route after a history of commands, each accepted or refused.
pub open spec fn token_after(
    current: Option<ContextToken>,
    history: Seq<(Option<ContextToken>, ContextAction)>,
) -> Option<ContextToken>
    decreases history.len(),
{
    if history.len() == 0 {
        current
    } else {
        let before = token_after(current, history.drop_last());
        let (next, action) = history.last();
        if observes_command(before, next, action) {
            next
        } else {
            before
        }
    }
}

/// However many commands a bound session receives, it stays on its connection,
/// and its generation never goes back.
pub proof fn law_bound_route_never_goes_back(
    current: ContextToken,
    history: Seq<(Option<ContextToken>, ContextAction)>,
)
    ensures
        token_after(Some(current), history) matches Some(t) && t.connection_epoch
            == current.connection_epoch && t.generation >= current.generation,
    decreases history.len(),
{
    if history.len() > 0 {
        law_bound_route_never_goes_back(current, history.drop_last());
    }
}

/// Only a focus command moves a bound session to another context.
pub proof fn law_only_focus_rebinds(
    current: ContextToken,
    history: Seq<(Option<ContextToken>, ContextAction)>,
)
    requires
        forall|i: int| 0 <= i < history.len() ==> (#[trigger] history[i]).1 != ContextAction::Focus,
    ensures
        token_after(Some(current), history) matches Some(t) && t.context_id == current.context_id,
    decreases history.len(),
{
    if history.len() > 0 {
        let shorter = history.drop_last();
        assert forall|i: int| 0 <= i < shorter.len() implies (#[trigger] shorter[i]).1
            != ContextAction::Focus by {
            assert(shorter[i] == history[i]);
        }
        law_only_focus_rebinds(current, shorter);
        law_bound_route_never_goes_back(current, shorter);
    }
}

/// A session that has no token yet accepts exactly the valid tokens; once it has
/// accepted one, it accepts it again, and a missing token never.
pub proof fn law_accepted_token_is_accepted_again(
    current: Option<ContextToken>,
    next: Option<ContextToken>,
)
    ensures
        observes(None, next) == token_valid(next),
        observes(current, next) ==> observes(next, next),
        !observes(current, None),
{
}

} // verus!
