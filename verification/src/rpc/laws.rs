//! Which settings the renderer starts with, and what it does about its connections.
#[allow(unused_imports)]
use super::{
    after_event, broker_fault, capability, current_owner, router_wf, step_of, theme_of, theme_supported, RouterView,
    RpcEvent, RpcStepView,
};
#[allow(unused_imports)]
use crate::json::{json_member, Json};
#[allow(unused_imports)]
use crate::message::RendererEvent;
#[allow(unused_imports)]
use crate::state::{Mailbox, Owner};
use vstd::prelude::*;

verus! {

/// Settings are accepted exactly where they could be read and name a theme that there is;
/// where they could be read but do not, the user is told.
pub proof fn law_settings_name_a_theme(read: Result<Json, Seq<char>>, missing: Seq<char>)
    ensures
        broker_fault(read, missing) is None <==> {
            &&& read is Ok
            &&& json_member(read->Ok_0, "theme"@) matches Some(Json::Text(name)) && (name
                == "eleven"@ || name == "ten"@ || name == "abc"@ || name == "void"@ || name
                == "wasm"@)
        },
        broker_fault(read, missing) is Some ==> (broker_fault(
            read,
            missing,
        )->0.notification is Some <==> read is Ok),
{
}

/// A connection that comes gets a number that none had, is served under it, and from then on
/// has a route; the others keep theirs.
pub proof fn law_new_connection_is_served(
    router: RouterView,
    current: Option<Owner>,
    event: RpcEvent,
    other: Owner,
)
    requires
        router_wf(router),
        event == RpcEvent::Accepted(Ok(())),
        router.next_owner < u64::MAX,
    ensures
        ({
            let after = after_event(router, event);
            let owner = after.next_owner;
            &&& step_of(router, event, current) == RpcStepView::Serve(owner)
            &&& !router.routes.contains(owner)
            &&& after.routes.contains(owner)
            &&& other != owner ==> (after.routes.contains(other) <==> router.routes.contains(
                other,
            ))
            &&& after.routes.len() == router.routes.len() + 1
        }),
{
    let after = after_event(router, event);
    assert(after.routes[router.routes.len() as int] == after.next_owner);
    if router.routes.contains(other) {
        let i = router.routes.index_of(other);
        assert(after.routes[i] == other);
    }
}

/// A connection that has ended has no route any more, and the others keep theirs; a failure
/// of it is recorded and ends nothing.
pub proof fn law_ended_connection_is_forgotten(
    router: RouterView,
    current: Option<Owner>,
    event: RpcEvent,
    other: Owner,
)
    requires
        event is Completed,
    ensures
        !after_event(router, event).routes.contains(event->Completed_0),
        other != event->Completed_0 ==> (after_event(router, event).routes.contains(other)
            <==> router.routes.contains(other)),
        after_event(router, event).next_owner == router.next_owner,
        event->Completed_1 is Ok <==> step_of(router, event, current) == RpcStepView::Wait,
        event->Completed_1 is Err ==> step_of(router, event, current) is Record,
{
    let keep = crate::admission::other_than(event->Completed_0);
    crate::list::lemma_filter_members(router.routes, keep);
}

/// What the user did goes to the connection that it was done for, as it is, exactly where
/// its frame is shown and it is still there.
pub proof fn law_actions_reach_their_connection(
    router: RouterView,
    current: Option<Owner>,
    owner: Owner,
    action: RendererEvent,
)
    ensures
        current == Some(owner) && router.routes.contains(owner) ==> step_of(
            router,
            RpcEvent::Event(Some((owner, action))),
            current,
        ) == RpcStepView::Forward(owner, action),
        current != Some(owner) || !router.routes.contains(owner) ==> step_of(
            router,
            RpcEvent::Event(Some((owner, action))),
            current,
        ) == RpcStepView::Wait,
        after_event(router, RpcEvent::Event(Some((owner, action)))) == router,
{
}

/// The service ends well where its parent has ended or it was asked to; it ends with an error
/// where it can take no connections, or where the window's thread is gone.
pub proof fn law_service_ends_for_a_reason(
    router: RouterView,
    event: RpcEvent,
    current: Option<Owner>,
)
    ensures
        step_of(router, event, current) == RpcStepView::Exit(Ok(())) <==> event is ParentExited
            || event is ShutdownRequested,
        step_of(router, event, current) is Exit <==> event is ParentExited
            || event is ShutdownRequested || event is TaskFailed || event is Finished || (
        event is Accepted && event->Accepted_0 is Err) || (event is Event && event->Event_0
            is None),
{
}

/// The renderer says of the one setting that it answers for whether its theme shows the
/// composition, and of every other that it has none.
pub proof fn law_only_the_preedit_is_answered_for(path: Seq<char>, preedit: bool)
    ensures
        capability(path, preedit) is Some <==> path == ".capabilities.preedit"@,
        path == ".capabilities.preedit"@ && preedit ==> capability(path, preedit) == Some("true"@),
        path == ".capabilities.preedit"@ && !preedit ==> capability(path, preedit) == Some(
            "false"@,
        ),
{
}

/// Actions go to the owner of an open mailbox, and to nobody once it is closed.
pub proof fn law_closed_mailbox_has_no_owner(mailbox: Mailbox)
    ensures
        mailbox@.closed ==> current_owner(mailbox) is None,
        !mailbox@.closed ==> current_owner(mailbox) == mailbox@.owner,
{
}

} // verus!
