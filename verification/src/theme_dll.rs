//! Themes that lie in libraries of their own: what is accepted from them, and which of
//! their answers count.
use crate::json::{kind, JsonKind};
#[allow(unused_imports)]
use crate::json::json_tree;
use crate::message::RendererEvent;
use crate::state::Owner;
use crate::text::{join2, same_text};
use crate::theme_api::{EventSink, ThemeCapabilities, ThemeNotice, UiAction};
#[allow(unused_imports)]
use crate::theme_api::{notice_views, sent, FrameView, ThemeNoticeView};
#[allow(unused_imports)]
use crate::theme_window::text_view;
use vstd::prelude::*;

pub mod laws;

verus! {

/// Whether what a library handed out can be read at all; `limit` is the number of bytes
/// that may be handed over at a time.
pub fn check_payload(present: bool, len: usize, limit: usize) -> (r: Result<(), String>)
    ensures
        r is Ok <==> present && 0 < len <= limit,
        r matches Err(error) ==> error@ == "theme returned an invalid payload"@,
{
    if !present || len == 0 || len > limit {
        return Err("theme returned an invalid payload".to_owned());
    }
    Ok(())
}

/// What is reported where what a library handed out could not be read.
pub fn invalid_response(error: &str) -> (r: String)
    ensures
        r@ == "invalid theme response: "@ + error@,
{
    join2("invalid theme response: ", error)
}

/// Whether a library is one that the renderer can use: it has an entry, which hands out
/// a table of the size that is expected.
pub fn check_table(has_entry: bool, table: Option<usize>, expected: usize) -> (r: Result<
    (),
    String,
>)
    ensures
        r is Ok <==> has_entry && table == Some(expected),
        r matches Err(error) ==> error@ == (if !has_entry {
            "theme entry point is missing"@
        } else if table is None {
            "theme entry returned null"@
        } else {
            "theme DLL must be updated together with renderer"@
        }),
{
    if !has_entry {
        return Err("theme entry point is missing".to_owned());
    }
    match table {
        None => Err("theme entry returned null".to_owned()),
        Some(size) => {
            if size != expected {
                Err("theme DLL must be updated together with renderer".to_owned())
            } else {
                Ok(())
            }
        },
    }
}

/// What a library says of its theme.
pub struct Description {
    pub name: String,
    pub capabilities: ThemeCapabilities,
    pub defaults: serde_json::Value,
}

/// Takes what a library says of its theme, which has to be the one that was asked for.
pub fn check_description(description: Result<Description, String>, name: &str) -> (r: Result<
    Description,
    String,
>)
    ensures
        match description {
            Err(error) => r == Err::<Description, String>(error),
            Ok(description) => if description.name@ == name@ && json_tree(
                description.defaults,
            ) is Object {
                r == Ok::<Description, String>(description)
            } else {
                r matches Err(error) && error@
                    == "theme metadata does not match its registration"@
            },
        },
{
    let description: Description = match description {
        Ok(description) => description,
        Err(error) => {
            return Err(error);
        },
    };
    if !same_text(&description.name, name) || kind(&description.defaults) != JsonKind::Object {
        return Err("theme metadata does not match its registration".to_owned());
    }
    Ok(description)
}

/// What a library answers: what the user is to know, what went wrong, and what the user
/// did, each with the number of the content that it was done on.
pub struct Reply {
    pub notices: Vec<ThemeNotice>,
    pub error: Option<String>,
    pub events: Vec<(u64, UiAction)>,
}

/// Whether the settings of a theme can be handed over.
pub fn check_settings(len: usize, limit: usize) -> (r: Result<(), String>)
    ensures
        r is Ok <==> len <= limit,
        r matches Err(error) ==> error@ == "theme settings payload too large"@,
{
    if len > limit {
        return Err("theme settings payload too large".to_owned());
    }
    Ok(())
}

/// Takes how making a theme went: what the user is to know, and whether there is a
/// theme now.
pub fn created(reply: Result<Reply, String>, has_instance: bool) -> (r: (
    Vec<ThemeNotice>,
    Result<(), String>,
))
    ensures
        match reply {
            Err(error) => r.0@ == Seq::<ThemeNotice>::empty() && r.1 == Err::<(), String>(error),
            Ok(reply) => r.0 == reply.notices && match reply.error {
                Some(error) => r.1 == Err::<(), String>(error),
                None => if has_instance {
                    r.1 is Ok
                } else {
                    r.1 matches Err(error) && error@ == "theme did not create an instance"@
                },
            },
        },
{
    match reply {
        Err(error) => (Vec::new(), Err(error)),
        Ok(reply) => {
            let result: Result<(), String> = match reply.error {
                Some(error) => Err(error),
                None => if has_instance {
                    Ok(())
                } else {
                    Err("theme did not create an instance".to_owned())
                },
            };
            (reply.notices, result)
        },
    }
}

/// What becomes of what the user did: only what was done on the present content counts,
/// and only where its frame allows it.
pub open spec fn delivered(current: u64, frame: FrameView, events: Seq<(u64, UiAction)>) -> Seq<
    (Owner, RendererEvent),
>
    decreases events.len(),
{
    if events.len() == 0 {
        Seq::empty()
    } else {
        let before = delivered(current, frame, events.drop_last());
        let (content, action) = events.last();
        if content != current {
            before
        } else {
            match sent(frame, action) {
                Some(event) => before.push(event),
                None => before,
            }
        }
    }
}

/// A theme that lies in a library.
pub struct Backend {
    /// The number of the content that is shown, and who gets what is done on it.
    pub events: Option<(u64, EventSink)>,
    pub notices: Vec<ThemeNotice>,
    /// Why the theme is not asked any more.
    pub failure: Option<String>,
}

#[verifier::ext_equal]
pub ghost struct BackendView {
    pub events: Option<(u64, FrameView)>,
    pub notices: Seq<ThemeNoticeView>,
    pub failure: Option<Seq<char>>,
}

impl View for Backend {
    type V = BackendView;

    open spec fn view(&self) -> BackendView {
        BackendView {
            events: match self.events {
                Some((content, sink)) => Some((content, sink@)),
                None => None,
            },
            notices: notice_views(self.notices@),
            failure: text_view(self.failure),
        }
    }
}

/// What is delivered of an answer that reports no error.
pub open spec fn delivered_of(b: BackendView, events: Seq<(u64, UiAction)>) -> Seq<
    (Owner, RendererEvent),
> {
    match b.events {
        Some((current, frame)) => delivered(current, frame, events),
        None => Seq::empty(),
    }
}

/// Goes through what the user did, in order.
fn deliver(current: u64, sink: &EventSink, events: &Vec<(u64, UiAction)>) -> (r: Vec<
    (Owner, RendererEvent),
>)
    ensures
        r@ == delivered(current, sink@, events@),
{
    let mut out: Vec<(Owner, RendererEvent)> = Vec::new();
    let ghost all = events@;
    let mut i: usize = 0;
    while i < events.len()
        invariant
            i <= events.len(),
            all == events@,
            out@ == delivered(current, sink@, all.take(i as int)),
        decreases events.len() - i,
    {
        proof {
            let next = all.take(i + 1);
            assert(next.drop_last() =~= all.take(i as int));
            assert(next.last() == all[i as int]);
        }
        let (content, action): (u64, UiAction) = events[i];
        if content == current {
            match sink.send(action) {
                Some(event) => {
                    out.push(event);
                },
                None => {},
            }
        }
        i += 1;
    }
    assert(all.take(all.len() as int) =~= all);
    out
}

impl Backend {
    /// A theme that shows nothing.
    pub fn new() -> (r: Self)
        ensures
            r@ == (BackendView { events: None, notices: Seq::empty(), failure: None }),
    {
        let r = Backend { events: None, notices: Vec::new(), failure: None };
        assert(r@.notices =~= Seq::<ThemeNoticeView>::empty());
        r
    }

    /// Whether the theme may be asked something that is so many bytes long.
    pub fn may_call(&self, len: usize, limit: usize) -> (r: Result<(), String>)
        ensures
            r is Ok <==> self@.failure is None && len <= limit,
            r matches Err(error) ==> error@ == (match self@.failure {
                Some(failure) => failure,
                None => "theme view payload too large"@,
            }),
    {
        if let Some(error) = &self.failure {
            return Err(error.clone());
        }
        if len > limit {
            return Err("theme view payload too large".to_owned());
        }
        Ok(())
    }

    /// Takes the theme's answer: what the user is to know is kept, and the result is what
    /// the user did, as far as it still counts.
    pub fn answered(&mut self, reply: Result<Reply, String>) -> (r: Result<
        Vec<(Owner, RendererEvent)>,
        String,
    >)
        ensures
            match reply {
                Err(error) => r == Err::<Vec<(Owner, RendererEvent)>, String>(error)
                    && final(self)@ == old(self)@,
                Ok(reply) => {
                    &&& final(self)@ == (BackendView {
                        notices: old(self)@.notices + notice_views(reply.notices@),
                        ..old(self)@
                    })
                    &&& match reply.error {
                        Some(error) => r == Err::<Vec<(Owner, RendererEvent)>, String>(error),
                        None => r matches Ok(events) && events@ == delivered_of(
                            old(self)@,
                            reply.events@,
                        ),
                    }
                },
            },
    {
        let reply: Reply = match reply {
            Ok(reply) => reply,
            Err(error) => {
                return Err(error);
            },
        };
        let ghost before = notice_views(self.notices@);
        let mut notices: Vec<ThemeNotice> = reply.notices;
        let ghost added = notice_views(notices@);
        self.notices.append(&mut notices);
        assert(notice_views(self.notices@) =~= before + added);
        if let Some(error) = reply.error {
            return Err(error);
        }
        match &self.events {
            Some((current, sink)) => Ok(deliver(*current, sink, &reply.events)),
            None => Ok(Vec::new()),
        }
    }

    /// Takes who gets what is done on content that is about to be shown.
    pub fn showing(&mut self, content: u64, events: EventSink)
        ensures
            final(self)@ == (BackendView {
                events: Some((content, events@)),
                ..old(self)@
            }),
    {
        self.events = Some((content, events));
    }

    /// Takes that the theme is about to be hidden: nothing that is done on it counts.
    pub fn hiding(&mut self)
        ensures
            final(self)@ == (BackendView { events: None, ..old(self)@ }),
    {
        self.events = None;
    }

    /// Takes how hiding went. Where it went wrong, the theme is not asked any more.
    pub fn hidden(&mut self, result: Result<(), String>)
        ensures
            final(self)@ == (match result {
                Ok(()) => old(self)@,
                Err(error) => BackendView { failure: Some(error@), ..old(self)@ },
            }),
    {
        if let Err(error) = result {
            self.failure = Some(error);
        }
    }

    /// What the user is to know since it was last asked.
    pub fn take_notices(&mut self) -> (r: Vec<ThemeNotice>)
        ensures
            notice_views(r@) == old(self)@.notices,
            final(self)@ == (BackendView { notices: Seq::empty(), ..old(self)@ }),
    {
        let mut taken: Vec<ThemeNotice> = Vec::new();
        std::mem::swap(&mut taken, &mut self.notices);
        assert(notice_views(self.notices@) =~= Seq::<ThemeNoticeView>::empty());
        taken
    }
}

/// What was done on content that is no longer shown is never delivered.
pub proof fn law_late_events_are_dropped(
    current: u64,
    frame: FrameView,
    events: Seq<(u64, UiAction)>,
)
    requires
        forall|i: int| 0 <= i < events.len() ==> (#[trigger] events[i]).0 != current,
    ensures
        delivered(current, frame, events) == Seq::<(Owner, RendererEvent)>::empty(),
    decreases events.len(),
{
    if events.len() > 0 {
        assert(events.last().0 != current);
        law_late_events_are_dropped(current, frame, events.drop_last());
    }
}

/// All that is delivered goes to the connection of the frame that is shown, with the
/// frame's identity.
pub proof fn law_delivered_events_carry_the_frame(
    current: u64,
    frame: FrameView,
    events: Seq<(u64, UiAction)>,
)
    ensures
        forall|i: int|
            0 <= i < delivered(current, frame, events).len() ==> {
                let (owner, event) = #[trigger] delivered(current, frame, events)[i];
                owner == frame.owner && event.session_id == frame.session_id && event.token
                    == frame.token && event.revision == frame.revision
            },
    decreases events.len(),
{
    if events.len() > 0 {
        law_delivered_events_carry_the_frame(current, frame, events.drop_last());
    }
}

} // verus!
