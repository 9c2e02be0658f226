//! The preview's control window: its buttons, its status line and its worker.
use crate::geometry::Rect;
use crate::text::{join2, join3, same_text};
use crate::geometry::half;
#[allow(unused_imports)]
use crate::geometry::half_of;
#[allow(unused_imports)]
use crate::xaml_host::measurable;
use vstd::prelude::*;
use vstd::string::*;

pub mod laws;

verus! {

/// Identifies the button that reads the settings again.
pub const REFRESH: usize = 1;

/// Identifies the button that closes the preview.
pub const CLOSE: usize = 2;

/// What the window asks of its worker.
#[derive(Clone, Copy, Debug, PartialEq, Eq, Structural)]
pub enum Command {
    /// Read the settings again and load the theme that they name.
    Refresh,
    /// Take no further command, and release the theme.
    Close,
}

/// What the worker tells its window.
pub enum Completion {
    /// A refresh has ended; an error leaves the theme that is shown.
    Refreshed(Result<String, String>),
    /// The worker has released its theme and ended.
    Closed,
}

/// One thing that the window does.
#[derive(Debug, PartialEq, Eq)]
pub enum ControllerAction {
    EnableRefresh(bool),
    EnableClose(bool),
    Status(String),
    Send(Command),
    /// Show an error to the user.
    ShowError(String),
    /// End the message loop with an exit code.
    Quit(i32),
    /// Take the place that the system suggests, without becoming the active window.
    MoveTo(Place),
    /// Place the controls anew.
    Layout,
}

pub ghost enum ActionView {
    EnableRefresh(bool),
    EnableClose(bool),
    Status(Seq<char>),
    Send(Command),
    ShowError(Seq<char>),
    Quit(i32),
    MoveTo(Place),
    Layout,
}

impl View for ControllerAction {
    type V = ActionView;

    open spec fn view(&self) -> ActionView {
        match *self {
            ControllerAction::EnableRefresh(on) => ActionView::EnableRefresh(on),
            ControllerAction::EnableClose(on) => ActionView::EnableClose(on),
            ControllerAction::Status(text) => ActionView::Status(text@),
            ControllerAction::Send(command) => ActionView::Send(command),
            ControllerAction::ShowError(text) => ActionView::ShowError(text@),
            ControllerAction::Quit(code) => ActionView::Quit(code),
            ControllerAction::MoveTo(place) => ActionView::MoveTo(place),
            ControllerAction::Layout => ActionView::Layout,
        }
    }
}

/// The views of a list of actions, in order.
pub open spec fn action_views(s: Seq<ControllerAction>) -> Seq<ActionView> {
    Seq::new(s.len(), |i: int| s[i]@)
}

/// What the window does when a refresh starts.
pub open spec fn refresh_actions() -> Seq<ActionView> {
    seq![
        ActionView::EnableRefresh(false),
        ActionView::Status("正在读取配置……"@),
        ActionView::Send(Command::Refresh),
    ]
}

/// What the window does when it starts to close.
pub open spec fn close_actions() -> Seq<ActionView> {
    seq![
        ActionView::EnableRefresh(false),
        ActionView::EnableClose(false),
        ActionView::Status("正在关闭……"@),
        ActionView::Send(Command::Close),
    ]
}

/// The window's state: whether a refresh is under way, and whether it closes.
#[derive(Clone, Copy, Debug, PartialEq, Eq, Structural)]
pub struct Controller {
    pub busy: bool,
    pub closing: bool,
}

/// The window's state after the user asked for a refresh, and what it does.
pub open spec fn on_refresh(c: Controller) -> (Controller, Seq<ActionView>) {
    if c.closing || c.busy {
        (c, Seq::empty())
    } else {
        (Controller { busy: true, ..c }, refresh_actions())
    }
}

/// The window's state after the user closed it, and what it does.
pub open spec fn on_close(c: Controller) -> (Controller, Seq<ActionView>) {
    if c.closing {
        (c, Seq::empty())
    } else {
        (Controller { closing: true, ..c }, close_actions())
    }
}

/// The window's state after its worker reported, and what it does.
pub open spec fn on_completion(c: Controller, completion: Completion) -> (
    Controller,
    Seq<ActionView>,
) {
    match completion {
        Completion::Closed => (c, seq![ActionView::Quit(0)]),
        Completion::Refreshed(result) => {
            let idle = Controller { busy: false, ..c };
            if c.closing {
                (idle, Seq::empty())
            } else {
                match result {
                    Ok(text) => (
                        idle,
                        seq![ActionView::EnableRefresh(true), ActionView::Status(text@)],
                    ),
                    Err(error) => (
                        idle,
                        seq![
                            ActionView::EnableRefresh(true),
                            ActionView::Status("刷新失败，原预览保持不变"@),
                            ActionView::ShowError(error@),
                        ],
                    ),
                }
            }
        },
    }
}

/// A message that the window handles.
#[derive(Clone, Copy, Debug, PartialEq, Eq, Structural)]
pub enum WindowMessage {
    /// A button, by the low word of the message's first parameter.
    Command(usize),
    Close,
    Size,
    /// Another resolution, and the place that the system suggests for it.
    DpiChanged(Rect),
    Other,
}

/// The place of a rectangle.
pub open spec fn suggested_place(area: Rect) -> Place {
    Place {
        x: area.left,
        y: area.top,
        width: (area.right - area.left) as i32,
        height: (area.bottom - area.top) as i32,
    }
}

/// Whether the window handles a message itself, its state after it, and what it does.
pub open spec fn on_message(c: Controller, message: WindowMessage) -> (
    bool,
    Controller,
    Seq<ActionView>,
) {
    match message {
        WindowMessage::Command(id) => {
            let (next, actions) = if id % 0x1_0000 == REFRESH {
                on_refresh(c)
            } else if id % 0x1_0000 == CLOSE {
                on_close(c)
            } else {
                (c, Seq::empty())
            };
            (true, next, actions)
        },
        WindowMessage::Close => (true, on_close(c).0, on_close(c).1),
        WindowMessage::Size => (true, c, seq![ActionView::Layout]),
        WindowMessage::DpiChanged(area) => (
            true,
            c,
            seq![ActionView::MoveTo(suggested_place(area)), ActionView::Layout],
        ),
        WindowMessage::Other => (false, c, Seq::empty()),
    }
}

impl Controller {
    /// The user asks for a refresh. While one is under way, or the window closes,
    /// nothing happens.
    pub fn refresh(&mut self) -> (r: Vec<ControllerAction>)
        ensures
            (*final(self), action_views(r@)) == on_refresh(*old(self)),
    {
        let mut actions: Vec<ControllerAction> = Vec::new();
        if !self.closing && !self.busy {
            self.busy = true;
            actions.push(ControllerAction::EnableRefresh(false));
            actions.push(ControllerAction::Status("正在读取配置……".to_owned()));
            actions.push(ControllerAction::Send(Command::Refresh));
        }
        assert(action_views(actions@) =~= on_refresh(*old(self)).1);
        actions
    }

    /// The user closes the window. Closing again does nothing; the window ends
    /// when its worker has.
    pub fn close(&mut self) -> (r: Vec<ControllerAction>)
        ensures
            (*final(self), action_views(r@)) == on_close(*old(self)),
    {
        let mut actions: Vec<ControllerAction> = Vec::new();
        if !self.closing {
            self.closing = true;
            actions.push(ControllerAction::EnableRefresh(false));
            actions.push(ControllerAction::EnableClose(false));
            actions.push(ControllerAction::Status("正在关闭……".to_owned()));
            actions.push(ControllerAction::Send(Command::Close));
        }
        assert(action_views(actions@) =~= on_close(*old(self)).1);
        actions
    }

    /// The worker reports.
    pub fn complete(&mut self, completion: Completion) -> (r: Vec<ControllerAction>)
        ensures
            (*final(self), action_views(r@)) == on_completion(*old(self), completion),
    {
        let mut actions: Vec<ControllerAction> = Vec::new();
        match completion {
            Completion::Closed => {
                actions.push(ControllerAction::Quit(0));
            },
            Completion::Refreshed(result) => {
                self.busy = false;
                if !self.closing {
                    actions.push(ControllerAction::EnableRefresh(true));
                    match result {
                        Ok(text) => {
                            actions.push(ControllerAction::Status(text));
                        },
                        Err(error) => {
                            actions.push(
                                ControllerAction::Status("刷新失败，原预览保持不变".to_owned()),
                            );
                            actions.push(ControllerAction::ShowError(error));
                        },
                    }
                }
            },
        }
        assert(action_views(actions@) =~= on_completion(*old(self), completion).1);
        actions
    }

    /// Handles a window message. The result is what the window does, or none
    /// where the system's default applies.
    pub fn window_proc(&mut self, message: WindowMessage) -> (r: Option<Vec<ControllerAction>>)
        requires
            message matches WindowMessage::DpiChanged(area) ==> measurable(area),
        ensures
            *final(self) == on_message(*old(self), message).1,
            match r {
                Some(actions) => on_message(*old(self), message).0 && action_views(actions@)
                    == on_message(*old(self), message).2,
                None => !on_message(*old(self), message).0,
            },
    {
        match message {
            WindowMessage::Command(id) => {
                let button: usize = id % 0x1_0000;
                if button == REFRESH {
                    Some(self.refresh())
                } else if button == CLOSE {
                    Some(self.close())
                } else {
                    let none: Vec<ControllerAction> = Vec::new();
                    assert(action_views(none@) =~= Seq::<ActionView>::empty());
                    Some(none)
                }
            },
            WindowMessage::Close => Some(self.close()),
            WindowMessage::Size => {
                let mut actions: Vec<ControllerAction> = Vec::new();
                actions.push(ControllerAction::Layout);
                assert(action_views(actions@) =~= seq![ActionView::Layout]);
                Some(actions)
            },
            WindowMessage::DpiChanged(area) => {
                let place = Place {
                    x: area.left,
                    y: area.top,
                    width: area.right - area.left,
                    height: area.bottom - area.top,
                };
                let mut actions: Vec<ControllerAction> = Vec::new();
                actions.push(ControllerAction::MoveTo(place));
                actions.push(ControllerAction::Layout);
                assert(action_views(actions@) =~= seq![
                    ActionView::MoveTo(place),
                    ActionView::Layout,
                ]);
                Some(actions)
            },
            WindowMessage::Other => None,
        }
    }
}

/// The exit code where a command does not reach the worker: closing without a
/// worker is no failure.
pub fn undelivered(command: Command) -> (r: i32)
    ensures
        r == (match command {
            Command::Refresh => 1int,
            Command::Close => 0int,
        }),
{
    match command {
        Command::Refresh => 1,
        Command::Close => 0,
    }
}

/// The status line after a refresh that loaded a theme.
pub open spec fn theme_status(requested: Seq<char>, selected: Seq<char>) -> Seq<char> {
    if selected == requested {
        "当前主题："@ + selected
    } else {
        "主题 "@ + requested + " 不可用，已回退到 "@ + selected
    }
}

/// The status line after a refresh that loaded a theme, which may not be the one
/// that the settings name.
pub fn refreshed_text(requested: &str, selected: &str) -> (r: String)
    ensures
        r@ == theme_status(requested@, selected@),
{
    if same_text(selected, requested) {
        join2("当前主题：", selected)
    } else {
        let head: String = join3("主题 ", requested, " 不可用，已回退到 ");
        join2(head.as_str(), selected)
    }
}

/// What the worker reports at last: its failure, if it did not end as it should,
/// and then that it has ended.
pub fn worker_ended(failed: bool) -> (r: Vec<Completion>)
    ensures
        r.len() == (if failed { 2int } else { 1int }),
        r[r.len() - 1] is Closed,
        failed ==> (r[0] matches Completion::Refreshed(Err(text)) && text@
            == "预览工作线程异常退出"@),
{
    let mut list: Vec<Completion> = Vec::new();
    if failed {
        list.push(Completion::Refreshed(Err("预览工作线程异常退出".to_owned())));
    }
    list.push(Completion::Closed);
    list
}

/// What the worker does next.
pub enum PreviewStep {
    /// Ask for the settings as they now are on disk.
    Load,
    /// Start the theme that they name.
    Start(String),
    /// Release the theme that was shown before, where there was one; then report.
    Report { release_old: bool, completion: Completion },
    /// Release the theme that is shown, where there is one, and end.
    End { release: bool },
}

/// The worker behind the window.
#[derive(Debug, PartialEq, Eq)]
pub struct PreviewWorker {
    /// The theme that is shown.
    pub current: Option<String>,
}

impl PreviewWorker {
    /// A worker that shows nothing yet.
    pub fn new() -> (r: Self)
        ensures
            r.current is None,
    {
        PreviewWorker { current: None }
    }

    /// Takes a command of the window; none where the window is gone.
    pub fn command(&mut self, command: Option<Command>) -> (r: PreviewStep)
        ensures
            match command {
                Some(Command::Refresh) => r is Load && final(self).current == old(self).current,
                Some(Command::Close) | None => r == (PreviewStep::End {
                    release: old(self).current is Some,
                }) && final(self).current is None,
            },
    {
        match command {
            Some(Command::Refresh) => PreviewStep::Load,
            Some(Command::Close) | None => {
                let release: bool = self.current.is_some();
                self.current = None;
                PreviewStep::End { release }
            },
        }
    }

    /// Takes the theme that the settings name, or why there are no settings. The
    /// theme that is shown stays.
    pub fn loaded(&self, theme: Result<String, String>) -> (r: PreviewStep)
        ensures
            r == (match theme {
                Ok(requested) => PreviewStep::Start(requested),
                Err(error) => PreviewStep::Report {
                    release_old: false,
                    completion: Completion::Refreshed(Err(error)),
                },
            }),
    {
        match theme {
            Ok(requested) => PreviewStep::Start(requested),
            Err(error) => PreviewStep::Report {
                release_old: false,
                completion: Completion::Refreshed(Err(error)),
            },
        }
    }

    /// Takes the theme that was started, which may not be the one that was asked
    /// for, or why none was. The theme that is shown leaves only for another.
    pub fn started(&mut self, requested: &str, selected: Result<String, String>) -> (r: PreviewStep)
        ensures
            match selected {
                Ok(name) => {
                    &&& final(self).current matches Some(shown) && shown@ == name@
                    &&& r matches PreviewStep::Report { release_old, completion } && release_old
                        == old(self).current is Some && (completion matches Completion::Refreshed(
                        Ok(text),
                    ) && text@ == theme_status(requested@, name@))
                },
                Err(error) => final(self).current == old(self).current && r == (
                PreviewStep::Report {
                    release_old: false,
                    completion: Completion::Refreshed(Err(error)),
                }),
            },
    {
        match selected {
            Ok(name) => {
                let text: String = refreshed_text(requested, name.as_str());
                let release_old: bool = self.current.is_some();
                self.current = Some(name);
                PreviewStep::Report { release_old, completion: Completion::Refreshed(Ok(text)) }
            },
            Err(error) => PreviewStep::Report {
                release_old: false,
                completion: Completion::Refreshed(Err(error)),
            },
        }
    }
}

/// Something that happens to the window.
pub enum ControllerEvent {
    Message(WindowMessage),
    Completed(Completion),
}

/// The window's state after an event, and what it does.
pub open spec fn on_event(c: Controller, event: ControllerEvent) -> (Controller, Seq<ActionView>) {
    match event {
        ControllerEvent::Message(message) => (on_message(c, message).1, on_message(c, message).2),
        ControllerEvent::Completed(completion) => on_completion(c, completion),
    }
}

/// Once the window closes, it stays so, and never sends its worker a command
/// again, whatever happens.
pub proof fn law_closing_window_sends_nothing(c: Controller, event: ControllerEvent)
    requires
        c.closing,
    ensures
        on_event(c, event).0.closing,
        forall|i: int|
            0 <= i < on_event(c, event).1.len() ==> !(#[trigger] on_event(c, event).1[i] is Send),
{
}

/// While a refresh is under way, no second one is sent.
pub proof fn law_one_refresh_at_a_time(c: Controller, event: ControllerEvent)
    requires
        c.busy,
    ensures
        forall|i: int|
            0 <= i < on_event(c, event).1.len() ==> #[trigger] on_event(c, event).1[i]
                != ActionView::Send(Command::Refresh),
{
}

/// A control's place in the window.
#[derive(Clone, Copy, Debug, PartialEq, Eq, Structural)]
pub struct Place {
    pub x: i32,
    pub y: i32,
    pub width: i32,
    pub height: i32,
}

/// The resolution that lengths are scaled by: at least 96.
pub open spec fn layout_dpi(dpi: u32) -> int {
    if dpi < 96 {
        96
    } else {
        dpi as int
    }
}

/// A length in pixels, rounded down.
pub open spec fn scaled(v: int, dpi: u32) -> int {
    v * layout_dpi(dpi) / 96
}

/// A length in pixels, rounded down.
fn scale(v: i32, dpi: u32) -> (r: i32)
    requires
        0 <= v,
        v * layout_dpi(dpi) <= i32::MAX,
    ensures
        r == scaled(v as int, dpi),
        0 <= r <= i32::MAX / 96,
{
    let d: i64 = if dpi < 96 {
        96
    } else {
        dpi as i64
    };
    assert(0 <= v * d) by (nonlinear_arith)
        requires
            0 <= v,
            0 <= d,
    ;
    (v as i64 * d / 96) as i32
}

/// Places the status line and the two buttons in a window of the given width.
pub fn layout(dpi: u32, client_right: i32) -> (r: (Place, Place, Place))
    requires
        128 * layout_dpi(dpi) <= i32::MAX,
        i32::MIN <= client_right - scaled(32, dpi),
    ensures
        r.0 == (Place {
            x: scaled(16, dpi) as i32,
            y: scaled(16, dpi) as i32,
            width: crate::geometry::larger(client_right - scaled(32, dpi), 1) as i32,
            height: scaled(48, dpi) as i32,
        }),
        r.1 == (Place {
            x: scaled(16, dpi) as i32,
            y: scaled(76, dpi) as i32,
            width: scaled(96, dpi) as i32,
            height: scaled(30, dpi) as i32,
        }),
        r.2 == (Place {
            x: scaled(128, dpi) as i32,
            y: scaled(76, dpi) as i32,
            width: scaled(96, dpi) as i32,
            height: scaled(30, dpi) as i32,
        }),
{
    let room: i32 = client_right - scale(32, dpi);
    let status = Place {
        x: scale(16, dpi),
        y: scale(16, dpi),
        width: if room < 1 {
            1
        } else {
            room
        },
        height: scale(48, dpi),
    };
    let refresh = Place {
        x: scale(16, dpi),
        y: scale(76, dpi),
        width: scale(96, dpi),
        height: scale(30, dpi),
    };
    let close = Place {
        x: scale(128, dpi),
        y: scale(76, dpi),
        width: scale(96, dpi),
        height: scale(30, dpi),
    };
    (status, refresh, close)
}

/// Where the window starts: centred across the work area, and below its middle,
/// where a theme shows its preview; never past the bottom or, before that, the top.
pub open spec fn start_place(work: Rect, dpi: u32) -> Place {
    Place {
        x: start_left(work, dpi) as i32,
        y: crate::geometry::larger(
            crate::geometry::smaller(start_below(work, dpi), work.bottom - scaled(180, dpi)),
            work.top as int,
        ) as i32,
        width: scaled(440, dpi) as i32,
        height: scaled(180, dpi) as i32,
    }
}

/// The left edge of a window that is centred across the work area.
pub open spec fn start_left(work: Rect, dpi: u32) -> int {
    work.left + half_of(work.right - work.left - scaled(440, dpi))
}

/// A little below the middle of the work area.
pub open spec fn start_below(work: Rect, dpi: u32) -> int {
    work.top + half_of(work.bottom - work.top) + scaled(120, dpi)
}

/// Whether the numbers from which the window's place is made can be written down.
pub open spec fn placeable(work: Rect, dpi: u32) -> bool {
    &&& 440 * layout_dpi(dpi) <= i32::MAX
    &&& measurable(work)
    &&& i32::MIN <= work.right - work.left - scaled(440, dpi)
    &&& i32::MIN <= start_left(work, dpi) <= i32::MAX
    &&& i32::MIN <= start_below(work, dpi) <= i32::MAX
    &&& i32::MIN <= work.bottom - scaled(180, dpi)
}

/// Where the window starts.
pub fn start_position(work: &Rect, dpi: u32) -> (r: Place)
    requires
        placeable(*work, dpi),
    ensures
        r == start_place(*work, dpi),
{
    let width: i32 = scale(440, dpi);
    let height: i32 = scale(180, dpi);
    let middle: i64 = work.top as i64 + half(work.bottom as i64 - work.top as i64);
    let below: i32 = (middle + scale(120, dpi) as i64) as i32;
    let lowest: i32 = work.bottom - height;
    let fitting: i32 = if below <= lowest {
        below
    } else {
        lowest
    };
    Place {
        x: (work.left as i64 + half(work.right as i64 - work.left as i64 - width as i64)) as i32,
        y: if fitting >= work.top {
            fitting
        } else {
            work.top
        },
        width,
        height,
    }
}

/// The window's first state, and what it does first: it refreshes.
pub fn run() -> (r: (Controller, Vec<ControllerAction>))
    ensures
        r.0 == (Controller { busy: true, closing: false }),
        action_views(r.1@) == refresh_actions(),
{
    let mut controller = Controller { busy: false, closing: false };
    let actions: Vec<ControllerAction> = controller.refresh();
    (controller, actions)
}

} // verus!
