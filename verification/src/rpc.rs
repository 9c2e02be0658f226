//! The renderer's service: which settings it starts with, what it answers to a
//! connection, and to which connection the user's actions go.
use crate::json::{as_str, get, parse_text};
#[allow(unused_imports)]
use crate::json::{json_member, json_of_text, json_tree, read_view, Json};
use crate::message::{RenderSnapshot, RendererEvent};
use crate::notifications::{invalid_configuration, UserNotification};
#[allow(unused_imports)]
use crate::notifications::{reported, UserNotificationView};
use crate::state::{Mailbox, Owner};
use crate::text::{join2, same_text};
#[allow(unused_imports)]
use crate::theme_api::{NoticeSeverity, ThemeNoticeView};
use vstd::prelude::*;

pub mod laws;

verus! {

/// Number of connections that the renderer serves at a time.
pub const MAX_ROUTES: usize = 64;

/// How long a query for settings may take, and how long the answer to a shutdown
/// request may, in milliseconds.
pub const QUERY_TIMEOUT: u64 = 2000;

/// Number of the user's actions that may wait for a connection.
pub const ROUTE_CAPACITY: usize = 32;

/// Whether the renderer has a theme of that name.
pub open spec fn theme_supported(name: Seq<char>) -> bool {
    name == "eleven"@ || name == "ten"@ || name == "abc"@ || name == "void"@ || name == "wasm"@
}

/// Whether the renderer has a theme of that name.
pub fn supports_theme(name: &str) -> (r: bool)
    ensures
        r == theme_supported(name@),
{
    same_text(name, "eleven") || same_text(name, "ten") || same_text(name, "abc") || same_text(
        name,
        "void",
    ) || same_text(name, "wasm")
}

/// How `format!` writes a text with `{:?}`.
pub uninterp spec fn debug_text(text: Seq<char>) -> Seq<char>;

/// `format!` with `{:?}` on a text: quoted, with some characters escaped. The
/// result depends on the text alone.
#[verifier::external_body]
fn quoted(text: &str) -> (r: String)
    ensures
        r@ == debug_text(text@),
{
    format!("{text:?}")
}

/// What the broker answered to a query for its settings.
#[derive(Debug, PartialEq, Eq)]
pub enum ConfigReply {
    Value(Option<String>),
    /// Another message.
    Unexpected,
}

/// The settings' text, or why there is none.
pub fn configuration_text(reply: ConfigReply) -> (r: Result<String, String>)
    ensures
        match reply {
            ConfigReply::Value(Some(text)) => r == Ok::<String, String>(text),
            ConfigReply::Value(None) => r matches Err(error) && error@
                == "broker returned no configuration root"@,
            ConfigReply::Unexpected => r matches Err(error) && error@
                == "broker returned an unexpected configuration response"@,
        },
{
    match reply {
        ConfigReply::Value(Some(text)) => Ok(text),
        ConfigReply::Value(None) => Err("broker returned no configuration root".to_owned()),
        ConfigReply::Unexpected => Err(
            "broker returned an unexpected configuration response".to_owned(),
        ),
    }
}

/// The theme that settings name.
pub open spec fn theme_of(settings: Json) -> Option<Seq<char>> {
    match json_member(settings, "theme"@) {
        Some(Json::Text(name)) => Some(name),
        _ => None,
    }
}

/// The theme that settings name.
pub fn configured_theme(settings: &serde_json::Value) -> (r: Option<String>)
    ensures
        match r {
            Some(name) => theme_of(json_tree(*settings)) == Some(name@),
            None => theme_of(json_tree(*settings)) is None,
        },
{
    match get(settings, "theme") {
        Some(value) => match as_str(value) {
            Some(name) => Some(name.to_owned()),
            None => None,
        },
        None => None,
    }
}

/// Why settings are refused, and whether the user is told of it.
pub struct Refusal {
    pub error: String,
    pub notification: Option<UserNotification>,
}

#[verifier::ext_equal]
pub ghost struct RefusalView {
    pub error: Seq<char>,
    pub notification: Option<UserNotificationView>,
}

impl View for Refusal {
    type V = RefusalView;

    open spec fn view(&self) -> RefusalView {
        RefusalView {
            error: self.error@,
            notification: match self.notification {
                Some(notification) => Some(notification@),
                None => None,
            },
        }
    }
}

/// Settings that the user is told about.
pub open spec fn refused(error: Seq<char>) -> RefusalView {
    RefusalView {
        error,
        notification: Some(
            reported(
                "renderer"@,
                ThemeNoticeView {
                    severity: NoticeSeverity::Warning,
                    code: "configuration.invalid"@,
                    message: "渲染配置无效，已使用内置默认值。"@,
                    details: error,
                },
            ),
        ),
    }
}

/// Settings that the user is told about.
fn refuse(error: String) -> (r: Refusal)
    ensures
        r@ == refused(error@),
{
    let notification: UserNotification = invalid_configuration(&error);
    Refusal { error, notification: Some(notification) }
}

/// Why the broker's settings are refused, if they are: they have to name a theme,
/// and one that the renderer has. `missing` says what is wrong with the name of a
/// theme that is no text.
pub open spec fn broker_fault(
    read: Result<Json, Seq<char>>,
    missing: Seq<char>,
) -> Option<RefusalView> {
    match read {
        Err(error) => Some(
            RefusalView {
                error: "broker returned invalid configuration JSON: "@ + error,
                notification: None,
            },
        ),
        Ok(settings) => match theme_of(settings) {
            None => Some(refused("broker returned an invalid renderer theme: "@ + missing)),
            Some(name) => if theme_supported(name) {
                None
            } else {
                Some(
                    refused("broker returned unsupported renderer theme "@ + debug_text(name)),
                )
            },
        },
    }
}

/// Takes settings that were read: the settings and the theme that they name, or why
/// they are refused.
pub fn accept_theme(read: Result<serde_json::Value, String>, missing: &str) -> (r: Result<
    (serde_json::Value, String),
    Refusal,
>)
    ensures
        match r {
            Ok((settings, theme)) => broker_fault(read_view(read), missing@) is None && read_view(
                read,
            ) == Ok::<Json, Seq<char>>(json_tree(settings)) && theme_of(json_tree(settings))
                == Some(theme@),
            Err(refusal) => broker_fault(read_view(read), missing@) == Some(refusal@),
        },
{
    let settings: serde_json::Value = match read {
        Ok(settings) => settings,
        Err(error) => {
            return Err(
                Refusal {
                    error: join2("broker returned invalid configuration JSON: ", &error),
                    notification: None,
                },
            );
        },
    };
    let theme: String = match configured_theme(&settings) {
        Some(theme) => theme,
        None => {
            return Err(refuse(join2("broker returned an invalid renderer theme: ", missing)));
        },
    };
    if !supports_theme(&theme) {
        return Err(
            refuse(join2("broker returned unsupported renderer theme ", &quoted(&theme))),
        );
    }
    Ok((settings, theme))
}

/// Takes the broker's answer: the settings and the theme that they name, or why
/// there are none.
pub fn load_theme(reply: ConfigReply, missing: &str) -> (r: Result<
    (serde_json::Value, String),
    Refusal,
>)
    ensures
        match reply {
            ConfigReply::Value(Some(text)) => match r {
                Ok((settings, theme)) => broker_fault(json_of_text(text@), missing@) is None
                    && json_of_text(text@) == Ok::<Json, Seq<char>>(json_tree(settings))
                    && theme_of(json_tree(settings)) == Some(theme@),
                Err(refusal) => broker_fault(json_of_text(text@), missing@) == Some(refusal@),
            },
            ConfigReply::Value(None) => r matches Err(refusal) && refusal@ == (RefusalView {
                error: "broker returned no configuration root"@,
                notification: None,
            }),
            ConfigReply::Unexpected => r matches Err(refusal) && refusal@ == (RefusalView {
                error: "broker returned an unexpected configuration response"@,
                notification: None,
            }),
        },
{
    match configuration_text(reply) {
        Ok(text) => accept_theme(parse_text(&text), missing),
        Err(error) => Err(Refusal { error, notification: None }),
    }
}

/// What is recorded where the renderer starts with the settings that it was built
/// with.
pub fn using_embedded(error: &str) -> (r: String)
    ensures
        r@ == error@ + "; using embedded settings"@,
{
    join2(error, "; using embedded settings")
}

/// The theme that the renderer starts with, or why it does not start.
pub fn starting_theme(settings: &serde_json::Value, missing: &str) -> (r: Result<String, Refusal>)
    ensures
        match r {
            Ok(theme) => theme_of(json_tree(*settings)) == Some(theme@),
            Err(refusal) => theme_of(json_tree(*settings)) is None && refusal@ == refused(
                "invalid renderer theme setting: "@ + missing@,
            ),
        },
{
    match configured_theme(settings) {
        Some(theme) => Ok(theme),
        None => Err(refuse(join2("invalid renderer theme setting: ", missing))),
    }
}

/// Something that happens to the service.
#[derive(Debug)]
pub enum RpcEvent {
    /// The process that started the renderer has ended.
    ParentExited,
    /// A connection came, or accepting one failed.
    Accepted(Result<(), String>),
    /// A connection has ended.
    Completed(Owner, Result<(), String>),
    /// A connection's task did not end by itself.
    TaskFailed(String),
    /// The user did something; none where the thread no longer reports.
    Event(Option<(Owner, RendererEvent)>),
    /// The thread has ended; none where it did not say how.
    Finished(Option<Result<(), String>>),
    /// A connection has asked to shut down.
    ShutdownRequested,
}

/// What the service does next.
#[derive(Debug)]
pub enum RpcStep {
    /// A connection is served under a number.
    Serve(Owner),
    /// Something is recorded.
    Record(String),
    /// The user's action goes to a connection.
    Forward(Owner, RendererEvent),
    /// Nothing.
    Wait,
    /// The service ends.
    Exit(Result<(), String>),
}

pub ghost enum RpcStepView {
    Serve(Owner),
    Record(Seq<char>),
    Forward(Owner, RendererEvent),
    Wait,
    Exit(Result<(), Seq<char>>),
}

impl View for RpcStep {
    type V = RpcStepView;

    open spec fn view(&self) -> RpcStepView {
        match *self {
            RpcStep::Serve(owner) => RpcStepView::Serve(owner),
            RpcStep::Record(text) => RpcStepView::Record(text@),
            RpcStep::Forward(owner, event) => RpcStepView::Forward(owner, event),
            RpcStep::Wait => RpcStepView::Wait,
            RpcStep::Exit(Ok(())) => RpcStepView::Exit(Ok(())),
            RpcStep::Exit(Err(error)) => RpcStepView::Exit(Err(error@)),
        }
    }
}

/// The connections that are served, and the number that the last one got.
pub struct Router {
    pub routes: Vec<Owner>,
    pub next_owner: Owner,
}

#[verifier::ext_equal]
pub ghost struct RouterView {
    pub routes: Seq<Owner>,
    pub next_owner: Owner,
}

impl View for Router {
    type V = RouterView;

    open spec fn view(&self) -> RouterView {
        RouterView { routes: self.routes@, next_owner: self.next_owner }
    }
}

/// What every router keeps: numbers are given out once, and there are not too many
/// connections.
pub open spec fn router_wf(router: RouterView) -> bool {
    &&& router.routes.len() <= MAX_ROUTES
    &&& forall|i: int| 0 <= i < router.routes.len() ==> (#[trigger] router.routes[i])
        <= router.next_owner
    &&& forall|i: int, j: int|
        0 <= i < j < router.routes.len() ==> #[trigger] router.routes[i]
            != #[trigger] router.routes[j]
}

/// The router after something happened.
pub open spec fn after_event(router: RouterView, event: RpcEvent) -> RouterView {
    match event {
        RpcEvent::Accepted(Ok(())) => RouterView {
            routes: router.routes.push((router.next_owner + 1) as u64),
            next_owner: (router.next_owner + 1) as u64,
        },
        RpcEvent::Completed(owner, _) => RouterView {
            routes: router.routes.filter(crate::admission::other_than(owner)),
            ..router
        },
        _ => router,
    }
}

/// What the service does about something; `current` is the connection whose frame is
/// shown.
pub open spec fn step_of(router: RouterView, event: RpcEvent, current: Option<Owner>) ->
    RpcStepView {
    match event {
        RpcEvent::ParentExited | RpcEvent::ShutdownRequested => RpcStepView::Exit(Ok(())),
        RpcEvent::Accepted(Ok(())) => RpcStepView::Serve((router.next_owner + 1) as u64),
        RpcEvent::Accepted(Err(error)) => RpcStepView::Exit(
            Err("renderer pipe accept failed: "@ + error@),
        ),
        RpcEvent::Completed(_, Ok(())) => RpcStepView::Wait,
        RpcEvent::Completed(_, Err(error)) => RpcStepView::Record(
            "client pipe failed: "@ + error@,
        ),
        RpcEvent::TaskFailed(error) => RpcStepView::Exit(
            Err("renderer connection task failed: "@ + error@),
        ),
        RpcEvent::Event(None) => RpcStepView::Exit(Err("UI event channel closed"@)),
        RpcEvent::Event(Some((owner, event))) => if current == Some(owner)
            && router.routes.contains(owner) {
            RpcStepView::Forward(owner, event)
        } else {
            RpcStepView::Wait
        },
        RpcEvent::Finished(Some(Err(error))) => RpcStepView::Exit(Err(error@)),
        RpcEvent::Finished(Some(Ok(()))) => RpcStepView::Exit(
            Err("UI thread exited unexpectedly"@),
        ),
        RpcEvent::Finished(None) => RpcStepView::Exit(Err("UI thread panicked"@)),
    }
}

/// The connection whose frame a mailbox shows, while the mailbox is open.
pub open spec fn current_owner(mailbox: Mailbox) -> Option<Owner> {
    if mailbox@.closed {
        None
    } else {
        mailbox@.owner
    }
}

impl Router {
    /// A service without connections.
    pub fn new() -> (r: Self)
        ensures
            router_wf(r@),
            r@ == (RouterView { routes: Seq::empty(), next_owner: 0 }),
    {
        let r = Router { routes: Vec::new(), next_owner: 0 };
        assert(r@.routes =~= Seq::<Owner>::empty());
        r
    }

    /// Whether another connection is accepted.
    pub fn accepting(&self) -> (r: bool)
        ensures
            r == (self@.routes.len() < MAX_ROUTES),
    {
        self.routes.len() < MAX_ROUTES
    }

    /// Whether a connection is served.
    fn has_route(&self, owner: Owner) -> (r: bool)
        ensures
            r == self@.routes.contains(owner),
    {
        let mut i: usize = 0;
        while i < self.routes.len()
            invariant
                i <= self.routes.len(),
                forall|j: int| 0 <= j < i ==> #[trigger] self.routes@[j] != owner,
            decreases self.routes.len() - i,
        {
            if self.routes[i] == owner {
                assert(self.routes@[i as int] == owner);
                return true;
            }
            i += 1;
        }
        false
    }

    /// Forgets a connection.
    fn forget(&mut self, owner: Owner)
        requires
            router_wf(old(self)@),
        ensures
            router_wf(final(self)@),
            final(self)@ == (RouterView {
                routes: old(self)@.routes.filter(crate::admission::other_than(owner)),
                ..old(self)@
            }),
    {
        let ghost all = self.routes@;
        let ghost keep = crate::admission::other_than(owner);
        let mut rest: Vec<Owner> = Vec::new();
        let mut i: usize = 0;
        proof {
            reveal(Seq::filter);
            assert(all.take(0).filter(keep) =~= Seq::<Owner>::empty());
        }
        while i < self.routes.len()
            invariant
                i <= self.routes.len(),
                all == self.routes@,
                keep == crate::admission::other_than(owner),
                rest@ == all.take(i as int).filter(keep),
                rest@.len() <= i,
            decreases self.routes.len() - i,
        {
            proof {
                crate::list::lemma_filter_take(all, keep, i as int);
            }
            if self.routes[i] != owner {
                rest.push(self.routes[i]);
            }
            i += 1;
        }
        proof {
            assert(all.take(all.len() as int) =~= all);
            lemma_forget_keeps(self@, owner);
        }
        self.routes = rest;
    }

    /// Takes something that happened, and says what the service does next. The user's
    /// action goes to a connection only while its frame is shown.
    pub fn step(&mut self, event: RpcEvent, mailbox: &Mailbox) -> (r: RpcStep)
        requires
            router_wf(old(self)@),
            event matches RpcEvent::Accepted(Ok(())) ==> old(self)@.routes.len() < MAX_ROUTES
                && old(self)@.next_owner < u64::MAX,
        ensures
            router_wf(final(self)@),
            final(self)@ == after_event(old(self)@, event),
            r@ == step_of(old(self)@, event, current_owner(*mailbox)),
    {
        match event {
            RpcEvent::ParentExited => RpcStep::Exit(Ok(())),
            RpcEvent::ShutdownRequested => RpcStep::Exit(Ok(())),
            RpcEvent::Accepted(Ok(())) => {
                let owner: Owner = self.next_owner + 1;
                self.next_owner = owner;
                self.routes.push(owner);
                RpcStep::Serve(owner)
            },
            RpcEvent::Accepted(Err(error)) => RpcStep::Exit(
                Err(join2("renderer pipe accept failed: ", &error)),
            ),
            RpcEvent::Completed(owner, result) => {
                self.forget(owner);
                match result {
                    Ok(()) => RpcStep::Wait,
                    Err(error) => RpcStep::Record(join2("client pipe failed: ", &error)),
                }
            },
            RpcEvent::TaskFailed(error) => RpcStep::Exit(
                Err(join2("renderer connection task failed: ", &error)),
            ),
            RpcEvent::Event(None) => RpcStep::Exit(Err("UI event channel closed".to_owned())),
            RpcEvent::Event(Some((owner, action))) => {
                if mailbox.is_owner(owner) && self.has_route(owner) {
                    RpcStep::Forward(owner, action)
                } else {
                    RpcStep::Wait
                }
            },
            RpcEvent::Finished(Some(Err(error))) => RpcStep::Exit(Err(error)),
            RpcEvent::Finished(Some(Ok(()))) => RpcStep::Exit(
                Err("UI thread exited unexpectedly".to_owned()),
            ),
            RpcEvent::Finished(None) => RpcStep::Exit(Err("UI thread panicked".to_owned())),
        }
    }
}

/// Forgetting a connection keeps what every router keeps.
proof fn lemma_forget_keeps(router: RouterView, owner: Owner)
    requires
        router_wf(router),
    ensures
        router_wf(
            RouterView {
                routes: router.routes.filter(crate::admission::other_than(owner)),
                ..router
            },
        ),
{
    let keep = crate::admission::other_than(owner);
    crate::list::lemma_filter_members(router.routes, keep);
    crate::list::lemma_filter_pairwise(router.routes, keep, |a: Owner, b: Owner| a != b);
}

/// How the service ended: what it ended with comes first, then how closing the
/// window went.
pub fn service_result(result: Result<(), String>, close: Result<(), String>) -> (r: Result<
    (),
    String,
>)
    ensures
        r == (match result {
            Ok(()) => close,
            Err(error) => Err::<(), String>(error),
        }),
{
    match result {
        Ok(()) => close,
        Err(error) => Err(error),
    }
}

/// What a connection asks.
pub enum ClientRequest {
    IdentifyService,
    QueryConfig { path: String },
    Ping,
    RenderSnapshot(RenderSnapshot),
    Shutdown,
    Other,
}

/// What the renderer answers, under the number of the request.
#[derive(Debug, PartialEq, Eq)]
pub enum Answer {
    /// Who the service is.
    Identity,
    Config(Option<String>),
    Pong(String),
    /// The renderer shuts down once this was sent.
    ShuttingDown { accepted: bool, message: String },
}

/// What a request leads to.
pub enum ServeStep {
    Reply { request_id: u64, answer: Answer },
    Render(RenderSnapshot),
    Ignore,
}

/// What is answered about a setting: the renderer only says whether its theme shows
/// the text that is being entered.
pub open spec fn capability(path: Seq<char>, preedit: bool) -> Option<Seq<char>> {
    if path == ".capabilities.preedit"@ {
        Some(
            if preedit {
                "true"@
            } else {
                "false"@
            },
        )
    } else {
        None
    }
}

/// What a request leads to.
pub fn serve_request(request_id: u64, request: ClientRequest, preedit: bool) -> (r: ServeStep)
    ensures
        match request {
            ClientRequest::IdentifyService => r == (ServeStep::Reply {
                request_id,
                answer: Answer::Identity,
            }),
            ClientRequest::QueryConfig { path } => r matches ServeStep::Reply {
                request_id: id,
                answer: Answer::Config(json),
            } && id == request_id && (match json {
                Some(text) => Some(text@),
                None => None,
            }) == capability(path@, preedit),
            ClientRequest::Ping => r matches ServeStep::Reply {
                request_id: id,
                answer: Answer::Pong(text),
            } && id == request_id && text@ == "renderer ready"@,
            ClientRequest::RenderSnapshot(snapshot) => r == ServeStep::Render(snapshot),
            ClientRequest::Shutdown => r matches ServeStep::Reply {
                request_id: id,
                answer: Answer::ShuttingDown { accepted, message },
            } && id == request_id && accepted && message@ == "renderer shutting down"@,
            ClientRequest::Other => r == ServeStep::Ignore,
        },
{
    let answer: Answer = match request {
        ClientRequest::IdentifyService => Answer::Identity,
        ClientRequest::QueryConfig { path } => {
            if same_text(&path, ".capabilities.preedit") {
                if preedit {
                    Answer::Config(Some("true".to_owned()))
                } else {
                    Answer::Config(Some("false".to_owned()))
                }
            } else {
                Answer::Config(None)
            }
        },
        ClientRequest::Ping => Answer::Pong("renderer ready".to_owned()),
        ClientRequest::RenderSnapshot(snapshot) => {
            return ServeStep::Render(snapshot);
        },
        ClientRequest::Shutdown => Answer::ShuttingDown {
            accepted: true,
            message: "renderer shutting down".to_owned(),
        },
        ClientRequest::Other => {
            return ServeStep::Ignore;
        },
    };
    ServeStep::Reply { request_id, answer }
}

/// How a connection ends that has asked to shut down; none where the answer was not
/// sent in time. The renderer shuts down either way.
pub fn shutdown_result(response: Option<Result<(), String>>) -> (r: Result<(), String>)
    ensures
        match response {
            None => r matches Err(error) && error@ == "shutdown response timed out"@,
            Some(result) => r == result,
        },
{
    match response {
        None => Err("shutdown response timed out".to_owned()),
        Some(result) => result,
    }
}

/// Which instance of the renderer runs: a preview does not get in the way of the
/// renderer that shows what is typed.
pub fn component(live: bool) -> (r: &'static str)
    ensures
        r@ == (if live {
            "renderer"@
        } else {
            "renderer-preview"@
        }),
{
    if live {
        "renderer"
    } else {
        "renderer-preview"
    }
}

/// A number is given to one connection only, even after that connection has ended:
/// numbers only grow.
pub proof fn law_numbers_only_grow(router: RouterView, event: RpcEvent, current: Option<Owner>)
    requires
        router_wf(router),
        router.next_owner < u64::MAX,
    ensures
        after_event(router, event).next_owner >= router.next_owner,
        step_of(router, event, current) matches RpcStepView::Serve(owner) ==> owner
            > router.next_owner && !router.routes.contains(owner) && after_event(
            router,
            event,
        ).next_owner == owner,
{
}

/// The user's action only ever goes to the connection on whose frame it was done,
/// and only while that connection is served and its frame is shown.
pub proof fn law_actions_go_to_the_shown_connection(
    router: RouterView,
    event: RpcEvent,
    current: Option<Owner>,
)
    ensures
        step_of(router, event, current) matches RpcStepView::Forward(owner, action) ==> current
            == Some(owner) && router.routes.contains(owner) && event == RpcEvent::Event(
            Some((owner, action)),
        ),
{
}

/// A connection that has ended gets none of the user's actions any more.
pub proof fn law_ended_connections_get_nothing(
    router: RouterView,
    owner: Owner,
    result: Result<(), String>,
    action: RendererEvent,
    current: Option<Owner>,
)
    ensures
        step_of(
            after_event(router, RpcEvent::Completed(owner, result)),
            RpcEvent::Event(Some((owner, action))),
            current,
        ) == RpcStepView::Wait,
{
    crate::list::lemma_filter_members(
        router.routes,
        crate::admission::other_than(owner),
    );
}

} // verus!
