//! The window of the strip of newer systems: when it can be made, what a view makes of
//! it, and how it answers.
use crate::geometry::Rect;
use crate::message::RenderRect;
use crate::presentation::is_view_visible;
#[allow(unused_imports)]
use crate::presentation::{placed, view_visible};
use crate::text::{decimal_text, join2};
#[allow(unused_imports)]
use crate::text::decimal;
use crate::theme::OsVersion;
#[allow(unused_imports)]
use crate::theme::older;
use crate::theme_api::{same_content, Anchor, CandidateView};
#[allow(unused_imports)]
use crate::theme_api::{same_view_content, CandidateViewView};
use crate::theme_window::WM_CLOSE;
use crate::xaml_host::{place, theme_failed, Placement, WindowStep};
#[allow(unused_imports)]
use crate::xaml_host::{measurable, window_step, WM_DPICHANGED};
use vstd::prelude::*;

verus! {

/// Whether a version of the system has the control that shows the strip.
pub open spec fn has_control(version: OsVersion) -> bool {
    !older(version, OsVersion { major: 10, minor: 0, pack: 0, build: 18362 })
}

/// Whether a version of the system has the control that shows the strip.
pub fn supports_xaml(version: OsVersion) -> (r: bool)
    ensures
        r == has_control(version),
{
    !version.before(&OsVersion::new(10, 0, 0, 18362))
}

/// Whether the strip can be made on a version of the system, or why not.
pub fn check_version(version: OsVersion) -> (r: Result<(), String>)
    ensures
        r is Ok <==> has_control(version),
        r matches Err(error) ==> error@
            == "XAML Island backend requires Windows 10 1903 (build 18362) or later, but the current version is "@
            + decimal(version.build as nat),
{
    if supports_xaml(version) {
        return Ok(());
    }
    Err(
        join2(
            "XAML Island backend requires Windows 10 1903 (build 18362) or later, but the current version is ",
            &decimal_text(version.build as u64),
        ),
    )
}

/// How a window is made.
#[derive(Debug, PartialEq, Eq)]
pub struct WindowStyle {
    /// It has no button in the task bar, and never becomes the active window.
    pub tool: bool,
    /// It can be closed from the keyboard.
    pub system_menu: bool,
    pub title: &'static str,
}

/// How the window is made: a preview can be found and closed.
pub fn window_style(preview: bool) -> (r: WindowStyle)
    ensures
        r.tool == !preview,
        r.system_menu == preview,
        r.title@ == (if preview {
            "Weasel-RS 皮肤预览"@
        } else {
            "weasel-rs-renderer"@
        }),
{
    WindowStyle {
        tool: !preview,
        system_menu: preview,
        title: if preview {
            "Weasel-RS 皮肤预览"
        } else {
            "weasel-rs-renderer"
        },
    }
}

/// What a view leads to.
#[derive(Clone, Copy, Debug, PartialEq, Eq)]
pub enum ViewPlan {
    /// The window goes, and so does what it shows.
    Conceal,
    /// The window moves, with the size that it has; where its resolution changes by
    /// that, it is measured and shown anew.
    Move(Anchor),
    /// The strip is laid out and measured anew, and shown.
    Rebuild(Anchor),
}

/// The window's state: whether it is a preview, and the view that it shows.
pub struct StripWindow {
    pub preview: bool,
    pub last: Option<CandidateView>,
}

/// The view of an optional view.
pub open spec fn shown(last: Option<CandidateView>) -> Option<CandidateViewView> {
    match last {
        Some(view) => Some(view@),
        None => None,
    }
}

/// What a view leads to.
pub open spec fn plan_of(last: Option<CandidateViewView>, view: CandidateViewView) -> ViewPlan {
    if !view_visible(view) {
        ViewPlan::Conceal
    } else if last matches Some(old) && same_view_content(old, view) {
        ViewPlan::Move(view.anchor->0)
    } else {
        ViewPlan::Rebuild(view.anchor->0)
    }
}

impl StripWindow {
    /// A window that shows nothing.
    pub fn new(preview: bool) -> (r: Self)
        ensures
            r.preview == preview,
            r.last is None,
    {
        StripWindow { preview, last: None }
    }

    /// Takes a view, and says what the window does. What the window shows counts no
    /// longer, where it goes.
    pub fn render(&mut self, view: &CandidateView) -> (r: ViewPlan)
        ensures
            r == plan_of(shown(old(self).last), view@),
            final(self).preview == old(self).preview,
            shown(final(self).last) == (if r is Conceal {
                None
            } else {
                shown(old(self).last)
            }),
    {
        if !is_view_visible(view) {
            self.last = None;
            return ViewPlan::Conceal;
        }
        let anchor: Anchor = match view.anchor {
            Some(anchor) => anchor,
            None => {
                self.last = None;
                return ViewPlan::Conceal;
            },
        };
        let unchanged: bool = match &self.last {
            Some(old) => same_content(old, view),
            None => false,
        };
        if unchanged {
            ViewPlan::Move(anchor)
        } else {
            ViewPlan::Rebuild(anchor)
        }
    }

    /// Takes how laying out a view went. Where it went wrong, the window goes.
    pub fn rendered(&mut self, view: CandidateView, result: Result<(), String>) -> (r: Result<
        (),
        String,
    >)
        ensures
            final(self).preview == old(self).preview,
            r is Ok <==> result is Ok,
            match (result, r) {
                (Err(cause), Err(error)) => error@ == "theme update failed: "@ + cause@
                    && final(self).last is None,
                _ => final(self).last == Some(view),
            },
    {
        match result {
            Ok(()) => {
                self.last = Some(view);
                Ok(())
            },
            Err(error) => {
                self.last = None;
                Err(theme_failed(&error))
            },
        }
    }

    /// Forgets what the window shows.
    pub fn conceal(&mut self)
        ensures
            final(self).last is None,
            final(self).preview == old(self).preview,
    {
        self.last = None;
    }

    /// Takes that the system's look has changed: the next view is laid out anew.
    pub fn refresh_appearance(&mut self)
        ensures
            final(self).last is None,
            final(self).preview == old(self).preview,
    {
        self.last = None;
    }

    /// Where the window goes, and how large it becomes: a preview goes to a place of its
    /// own.
    pub fn position(
        &self,
        anchor: &Anchor,
        width: i32,
        height: i32,
        preview_at: (i32, i32),
        work: Option<Rect>,
    ) -> (r: Placement)
        ensures
            r.width == width && r.height == height,
            (r.x as int, r.y as int) == (if self.preview {
                (preview_at.0 as int, preview_at.1 as int)
            } else {
                match work {
                    Some(area) => placed(
                        RenderRect {
                            left: anchor.left,
                            top: anchor.top,
                            right: anchor.right,
                            bottom: anchor.bottom,
                            valid: anchor.valid,
                        },
                        width as int,
                        height as int,
                        area,
                    ),
                    None => (anchor.left as int, anchor.bottom as int),
                }
            }),
    {
        if self.preview {
            return Placement { x: preview_at.0, y: preview_at.1, width, height };
        }
        place(
            &RenderRect {
                left: anchor.left,
                top: anchor.top,
                right: anchor.right,
                bottom: anchor.bottom,
                valid: anchor.valid,
            },
            width,
            height,
            work,
        )
    }

    /// What the window does with a message that it gets: only a preview can be closed.
    pub fn window_proc(
        &self,
        message: u32,
        size: u32,
        has_child: bool,
        suggested: &Rect,
    ) -> (r: WindowStep)
        requires
            message == WM_DPICHANGED ==> measurable(*suggested),
        ensures
            r == (if message == WM_CLOSE && self.preview {
                WindowStep::Quit
            } else {
                window_step(message, size, has_child, *suggested)
            }),
    {
        if message == WM_CLOSE && self.preview {
            return WindowStep::Quit;
        }
        crate::xaml_host::window_proc(message, size, has_child, suggested)
    }
}

/// A view with the same content as the last is never laid out anew, until the system's
/// look changes or the window goes.
pub proof fn law_same_content_only_moves(a: CandidateViewView, b: CandidateViewView)
    requires
        view_visible(b),
        same_view_content(a, b),
    ensures
        plan_of(Some(a), b) is Move,
        plan_of(None, b) is Rebuild,
{
}

} // verus!
