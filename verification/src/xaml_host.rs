//! The window that shows candidates in a system control: when it is shown, what is
//! laid out anew, and where it goes.
use crate::geometry::Rect;
use crate::message::{RenderRect, RenderSnapshot};
#[allow(unused_imports)]
use crate::message::RenderSnapshotView;
use crate::presentation::{is_visible, popup_position};
#[allow(unused_imports)]
use crate::presentation::{frame_visible, placed};
use crate::state::{same_content, Mailbox, Owner};
#[allow(unused_imports)]
use crate::state::{same_frame_content, MailboxView};
use crate::text::join2;
use crate::theme::{CandidateTheme, Color, OsVersion, StripPlan};
#[allow(unused_imports)]
use crate::theme::{palette_for, strip_of, Palette, StripPlanView};
use crate::ui_runtime::{WM_RENDERER_QUIT, WM_RENDERER_THEME, WM_RENDERER_UPDATE};
#[allow(unused_imports)]
use crate::ui_runtime::optional_frame;
use vstd::prelude::*;

pub mod laws;

verus! {

pub const WM_SIZE: u32 = 0x0005;

pub const WM_DPICHANGED: u32 = 0x02e0;

/// The system's colours, where they can be read: background, foreground, accent.
pub type SystemColors = Option<(Color, Color, Color)>;

/// What a message asks of the thread.
#[derive(Clone, Copy, Debug, PartialEq, Eq, Structural)]
pub enum HostMessage {
    Update,
    ThemeChanged,
    Quit,
    Dispatch,
}

/// What a message asks of the thread.
pub open spec fn asked(kind: u32) -> HostMessage {
    if kind == WM_RENDERER_UPDATE {
        HostMessage::Update
    } else if kind == WM_RENDERER_THEME {
        HostMessage::ThemeChanged
    } else if kind == WM_RENDERER_QUIT {
        HostMessage::Quit
    } else {
        HostMessage::Dispatch
    }
}

/// What a message asks of the thread.
pub fn classify(kind: u32) -> (r: HostMessage)
    ensures
        r == asked(kind),
{
    if kind == WM_RENDERER_UPDATE {
        HostMessage::Update
    } else if kind == WM_RENDERER_THEME {
        HostMessage::ThemeChanged
    } else if kind == WM_RENDERER_QUIT {
        HostMessage::Quit
    } else {
        HostMessage::Dispatch
    }
}

/// Whether the thread waits for another message: not once the mailbox is closed.
pub fn goes_on(mailbox: &Mailbox) -> (r: bool)
    ensures
        r == !mailbox@.closed,
{
    !mailbox.is_closed()
}

/// What the thread does with a message, for which the system returned `status`: it
/// ends with an error, or does what the message asks.
pub fn received(status: i32, kind: u32) -> (r: Result<HostMessage, String>)
    ensures
        if status == -1 {
            r matches Err(error) && error@ == "GetMessageW failed"@
        } else if status == 0 {
            r == Ok::<HostMessage, String>(HostMessage::Quit)
        } else {
            r == Ok::<HostMessage, String>(asked(kind))
        },
{
    if status == -1 {
        Err("GetMessageW failed".to_owned())
    } else if status == 0 {
        Ok(HostMessage::Quit)
    } else {
        Ok(classify(kind))
    }
}

/// What the window has to do for a frame.
pub enum HostStep {
    /// The window goes, and what it shows stays laid out.
    Conceal,
    /// The window goes, and so does what it shows.
    Withdraw,
    /// The window shows what it has; it only moves.
    Move(RenderRect),
    /// The strip is laid out anew, and the window shows it.
    Rebuild(StripPlan, RenderRect),
}

pub ghost enum HostStepView {
    Conceal,
    Withdraw,
    Move(RenderRect),
    Rebuild(StripPlanView, RenderRect),
}

impl View for HostStep {
    type V = HostStepView;

    open spec fn view(&self) -> HostStepView {
        match *self {
            HostStep::Conceal => HostStepView::Conceal,
            HostStep::Withdraw => HostStepView::Withdraw,
            HostStep::Move(anchor) => HostStepView::Move(anchor),
            HostStep::Rebuild(strip, anchor) => HostStepView::Rebuild(strip@, anchor),
        }
    }
}

/// The view of an optional step.
pub open spec fn step_view(step: Option<HostStep>) -> Option<HostStepView> {
    match step {
        Some(step) => Some(step@),
        None => None,
    }
}

/// The connection whose frame is shown, that frame, and the strip's theme.
pub struct XamlHost {
    pub owner: Owner,
    pub last: Option<RenderSnapshot>,
    pub theme: CandidateTheme,
}

#[verifier::ext_equal]
pub ghost struct XamlHostView {
    pub owner: Owner,
    pub last: Option<RenderSnapshotView>,
    pub palette: Option<Palette>,
}

impl View for XamlHost {
    type V = XamlHostView;

    open spec fn view(&self) -> XamlHostView {
        XamlHostView {
            owner: self.owner,
            last: optional_frame(self.last),
            palette: self.theme.palette,
        }
    }
}

/// Whether what is laid out for one frame also shows another.
pub open spec fn still_fits(last: Option<RenderSnapshotView>, s: RenderSnapshotView) -> bool {
    last matches Some(shown) && shown.visible && same_frame_content(shown, s) && (
    shown.anchor matches Some(anchor) && anchor.valid)
}

/// What the window has to do for a frame.
pub open spec fn step_for(
    host: XamlHostView,
    s: RenderSnapshotView,
    colors: SystemColors,
    version: OsVersion,
) -> HostStepView {
    if !frame_visible(s) {
        HostStepView::Conceal
    } else if still_fits(host.last, s) {
        HostStepView::Move(s.anchor->0)
    } else {
        HostStepView::Rebuild(
            strip_of(s, palette_for(host.palette, colors), version),
            s.anchor->0,
        )
    }
}

/// The host after it was asked to show a frame.
pub open spec fn after_frame(host: XamlHostView, s: RenderSnapshotView, colors: SystemColors) ->
    XamlHostView {
    XamlHostView {
        last: Some(s),
        palette: if frame_visible(s) && !still_fits(host.last, s) {
            Some(palette_for(host.palette, colors))
        } else {
            host.palette
        },
        ..host
    }
}

/// The host after a connection was given the window: what another one showed no
/// longer counts.
pub open spec fn given_to(host: XamlHostView, owner: Owner) -> XamlHostView {
    XamlHostView {
        owner,
        last: if host.owner == owner {
            host.last
        } else {
            None
        },
        ..host
    }
}

/// The host after it has looked into the mailbox, where something may have waited, and
/// what the window has to do.
pub open spec fn updated(
    host: XamlHostView,
    pending: Option<(Owner, Option<RenderSnapshotView>)>,
    colors: SystemColors,
    version: OsVersion,
) -> (XamlHostView, Option<HostStepView>) {
    match pending {
        None => (host, None),
        Some((owner, None)) => (
            XamlHostView { last: None, ..given_to(host, owner) },
            Some(HostStepView::Withdraw),
        ),
        Some((owner, Some(s))) => (
            after_frame(given_to(host, owner), s, colors),
            Some(step_for(given_to(host, owner), s, colors, version)),
        ),
    }
}

/// The host after the system's look has changed, and what the window has to do; `owner`
/// is the connection that the mailbox belongs to.
pub open spec fn with_new_look(
    host: XamlHostView,
    owner: Option<Owner>,
    colors: SystemColors,
    version: OsVersion,
) -> (XamlHostView, Option<HostStepView>) {
    let plain = XamlHostView { palette: None, ..host };
    let bare = XamlHostView { last: None, ..plain };
    match host.last {
        Some(s) if owner == Some(host.owner) => (
            after_frame(bare, s, colors),
            Some(step_for(bare, s, colors, version)),
        ),
        _ => (plain, None),
    }
}

/// Whether what is laid out for the last frame also shows another.
fn fits(last: &Option<RenderSnapshot>, snapshot: &RenderSnapshot) -> (r: bool)
    ensures
        r == still_fits(optional_frame(*last), snapshot@),
{
    match last {
        Some(shown) => shown.visible && same_content(shown, snapshot) && match &shown.anchor {
            Some(anchor) => anchor.valid,
            None => false,
        },
        None => false,
    }
}

impl XamlHost {
    /// A host that shows nothing.
    pub fn new() -> (r: Self)
        ensures
            r@ == (XamlHostView { owner: 0, last: None, palette: None }),
    {
        XamlHost { owner: 0, last: None, theme: CandidateTheme::new() }
    }

    /// Shows a frame: the window goes for one that is not to be seen, and for one
    /// that only moves nothing is laid out anew. The frame is remembered.
    pub fn render_snapshot(
        &mut self,
        snapshot: RenderSnapshot,
        colors: SystemColors,
        version: OsVersion,
    ) -> (r: HostStep)
        ensures
            r@ == step_for(old(self)@, snapshot@, colors, version),
            final(self)@ == after_frame(old(self)@, snapshot@, colors),
    {
        let ghost frame = snapshot@;
        if !is_visible(&snapshot) {
            self.last = Some(snapshot);
            return HostStep::Conceal;
        }
        let anchor: RenderRect = match &snapshot.anchor {
            Some(anchor) => *anchor,
            None => {
                self.last = Some(snapshot);
                return HostStep::Conceal;
            },
        };
        let step: HostStep = if fits(&self.last, &snapshot) {
            HostStep::Move(anchor)
        } else {
            HostStep::Rebuild(self.theme.render(&snapshot, colors, version), anchor)
        };
        self.last = Some(snapshot);
        step
    }

    /// Takes what waits in the mailbox, and says what the window has to do for it;
    /// none where nothing waits.
    pub fn update(&mut self, mailbox: &mut Mailbox, colors: SystemColors, version: OsVersion) -> (r:
        Option<HostStep>)
        ensures
            final(mailbox)@ == (MailboxView { pending: None, wake_pending: false, ..old(mailbox)@ }),
            (final(self)@, step_view(r)) == updated(
                old(self)@,
                old(mailbox)@.pending,
                colors,
                version,
            ),
    {
        match mailbox.take_pending() {
            None => None,
            Some((owner, frame)) => {
                if self.owner != owner {
                    self.last = None;
                }
                self.owner = owner;
                match frame {
                    Some(snapshot) => Some(self.render_snapshot(snapshot, colors, version)),
                    None => {
                        self.last = None;
                        Some(HostStep::Withdraw)
                    },
                }
            },
        }
    }

    /// Takes that the system's look has changed: the frame of the mailbox's owner is
    /// laid out anew, in the new colours.
    pub fn theme_changed(
        &mut self,
        mailbox: &Mailbox,
        colors: SystemColors,
        version: OsVersion,
    ) -> (r: Option<HostStep>)
        ensures
            (final(self)@, step_view(r)) == with_new_look(
                old(self)@,
                mailbox@.owner,
                colors,
                version,
            ),
    {
        self.theme = CandidateTheme::new();
        if mailbox.shown_owner() != Some(self.owner) {
            return None;
        }
        match self.last.take() {
            Some(snapshot) => Some(self.render_snapshot(snapshot, colors, version)),
            None => None,
        }
    }
}

/// What is reported where the strip could not be laid out.
pub fn theme_failed(error: &str) -> (r: String)
    ensures
        r@ == "theme update failed: "@ + error@,
{
    join2("theme update failed: ", error)
}

/// Where the window goes, and how large it becomes.
#[derive(Clone, Copy, Debug, PartialEq, Eq, Structural)]
pub struct Placement {
    pub x: i32,
    pub y: i32,
    pub width: i32,
    pub height: i32,
}

/// Where a window of a size goes that belongs to an anchor.
pub fn place(anchor: &RenderRect, width: i32, height: i32, work: Option<Rect>) -> (r: Placement)
    ensures
        r.width == width && r.height == height,
        match work {
            Some(area) => (r.x as int, r.y as int) == placed(
                *anchor,
                width as int,
                height as int,
                area,
            ),
            None => (r.x, r.y) == (anchor.left, anchor.bottom),
        },
{
    let (x, y) = popup_position(anchor, width, height, work);
    Placement { x, y, width, height }
}

/// What the window does with a message that it gets.
#[derive(Clone, Copy, Debug, PartialEq, Eq, Structural)]
pub enum WindowStep {
    /// The control takes the window's size.
    ResizeChild { width: i32, height: i32 },
    /// The window takes the place that the system suggests.
    MoveTo(Placement),
    /// The message is done with.
    Ignore,
    /// The thread ends.
    Quit,
    /// The system decides.
    Default,
}

/// What the window does with a message that it gets. A size comes as two numbers of
/// sixteen bits, the width in the lower ones. There is no control before it is
/// attached, nor after it was removed.
pub open spec fn window_step(message: u32, size: u32, has_child: bool, suggested: Rect) ->
    WindowStep {
    if message == WM_SIZE {
        if has_child {
            WindowStep::ResizeChild {
                width: (size % 0x10000) as i32,
                height: (size / 0x10000) as i32,
            }
        } else {
            WindowStep::Ignore
        }
    } else if message == WM_DPICHANGED {
        WindowStep::MoveTo(
            Placement {
                x: suggested.left,
                y: suggested.top,
                width: (suggested.right - suggested.left) as i32,
                height: (suggested.bottom - suggested.top) as i32,
            },
        )
    } else {
        WindowStep::Default
    }
}

/// Whether a rectangle has a size that can be written down.
pub open spec fn measurable(area: Rect) -> bool {
    i32::MIN <= area.right - area.left <= i32::MAX && i32::MIN <= area.bottom - area.top
        <= i32::MAX
}

/// What the window does with a message that it gets; `size` is a new size, and
/// `suggested` the place for a new resolution.
pub fn window_proc(message: u32, size: u32, has_child: bool, suggested: &Rect) -> (r: WindowStep)
    requires
        message == WM_DPICHANGED ==> measurable(*suggested),
    ensures
        r == window_step(message, size, has_child, *suggested),
{
    if message == WM_SIZE {
        if has_child {
            WindowStep::ResizeChild {
                width: (size % 0x10000) as i32,
                height: (size / 0x10000) as i32,
            }
        } else {
            WindowStep::Ignore
        }
    } else if message == WM_DPICHANGED {
        WindowStep::MoveTo(
            Placement {
                x: suggested.left,
                y: suggested.top,
                width: suggested.right - suggested.left,
                height: suggested.bottom - suggested.top,
            },
        )
    } else {
        WindowStep::Default
    }
}

/// How waiting for the thread's end went.
pub fn join_ui_thread(ended: bool, panicked: bool) -> (r: Result<(), String>)
    ensures
        if !ended {
            r matches Err(error) && error@
                == "XAML shutdown timed out; renderer process must exit"@
        } else if panicked {
            r matches Err(error) && error@ == "XAML thread panicked"@
        } else {
            r is Ok
        },
{
    if !ended {
        return Err("XAML shutdown timed out; renderer process must exit".to_owned());
    }
    if panicked {
        return Err("XAML thread panicked".to_owned());
    }
    Ok(())
}

/// Takes whether the thread could be woken; where not, the mailbox is closed.
pub fn woken(mailbox: &mut Mailbox, posted: bool) -> (r: Result<(), String>)
    ensures
        r is Ok <==> posted,
        r matches Err(error) ==> error@ == "could not wake XAML thread"@,
        final(mailbox)@ == (if posted {
            old(mailbox)@
        } else {
            MailboxView { closed: true, ..old(mailbox)@ }
        }),
{
    if posted {
        return Ok(());
    }
    mailbox.seal();
    Err("could not wake XAML thread".to_owned())
}

/// How the thread answered when it was started.
#[derive(Debug, PartialEq, Eq)]
pub enum Startup {
    Ready(u32),
    Failed(String),
    Silent(String),
}

/// The thread, or why there is none. A thread that did not answer may still be
/// there, so its mailbox is closed.
pub fn started(mailbox: &mut Mailbox, answer: Startup) -> (r: Result<u32, String>)
    ensures
        match answer {
            Startup::Ready(id) => r == Ok::<u32, String>(id) && final(mailbox)@ == old(mailbox)@,
            Startup::Failed(error) => r == Err::<u32, String>(error) && final(mailbox)@ == old(
                mailbox,
            )@,
            Startup::Silent(error) => r matches Err(text) && text@
                == "XAML startup failed or timed out: "@ + error@ && final(mailbox)@ == (
            MailboxView { closed: true, ..old(mailbox)@ }),
        },
{
    match answer {
        Startup::Ready(id) => Ok(id),
        Startup::Failed(error) => Err(error),
        Startup::Silent(error) => {
            mailbox.seal();
            Err(join2("XAML startup failed or timed out: ", &error))
        },
    }
}

/// A frame that comes again, with the same content, only moves the window: nothing
/// is laid out anew.
pub proof fn law_same_content_only_moves(
    host: XamlHostView,
    a: RenderSnapshotView,
    b: RenderSnapshotView,
    colors: SystemColors,
    version: OsVersion,
)
    requires
        frame_visible(a),
        frame_visible(b),
        same_frame_content(a, b),
    ensures
        step_for(after_frame(host, a, colors), b, colors, version) == HostStepView::Move(
            b.anchor->0,
        ),
{
}

/// After the system's look has changed, a frame that is to be seen is laid out anew
/// in the system's present colours, whatever colours were used before.
pub proof fn law_new_look_is_laid_out_anew(
    host: XamlHostView,
    s: RenderSnapshotView,
    colors: SystemColors,
    version: OsVersion,
)
    requires
        frame_visible(s),
    ensures
        step_for(XamlHostView { palette: None, last: None, ..host }, s, colors, version)
            == HostStepView::Rebuild(
            strip_of(s, palette_for(None, colors), version),
            s.anchor->0,
        ),
{
}

/// A frame of a new connection never keeps what another one had laid out.
pub proof fn law_other_owner_is_laid_out_anew(
    host: XamlHostView,
    owner: Owner,
    s: RenderSnapshotView,
    colors: SystemColors,
    version: OsVersion,
)
    requires
        owner != host.owner,
    ensures
        !(step_for(given_to(host, owner), s, colors, version) is Move),
{
}

} // verus!
