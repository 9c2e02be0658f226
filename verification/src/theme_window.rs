//! What the candidate windows have in common: the messages that they get, and how
//! often they try to find their place.
use crate::message::RendererEvent;
use crate::state::Owner;
use vstd::prelude::*;

pub mod laws;

verus! {

pub const WM_SIZE: u32 = 0x0005;

pub const WM_PAINT: u32 = 0x000f;

pub const WM_CLOSE: u32 = 0x0010;

pub const WM_ERASEBKGND: u32 = 0x0014;

pub const WM_CANCELMODE: u32 = 0x001f;

pub const WM_MOUSEACTIVATE: u32 = 0x0021;

pub const WM_NCDESTROY: u32 = 0x0082;

pub const WM_TIMER: u32 = 0x0113;

pub const WM_MOUSEMOVE: u32 = 0x0200;

pub const WM_LBUTTONDOWN: u32 = 0x0201;

pub const WM_LBUTTONUP: u32 = 0x0202;

pub const WM_CAPTURECHANGED: u32 = 0x0215;

pub const WM_MOUSELEAVE: u32 = 0x02a3;

pub const WM_DPICHANGED: u32 = 0x02e0;

/// The answer that keeps a window from becoming the active one.
pub const MA_NOACTIVATE: i64 = 3;

/// The timer after which drawing is tried again.
pub const RETRY_TIMER: usize = 1;

/// How long that timer takes, in milliseconds.
pub const RETRY_DELAY: u32 = 100;

/// How often a window is put into its place, where that changes its resolution.
pub const MAX_PLACINGS: u32 = 3;

/// What a message says. Points are in pixels of the window.
#[derive(Clone, Copy, Debug, PartialEq, Eq, Structural)]
pub enum Input {
    Paint,
    Erase,
    Close,
    Activate,
    Resized,
    /// The resolution in pixels to the inch, at least one.
    Resolution(u32),
    Retry,
    Down { x: i32, y: i32 },
    Up { x: i32, y: i32 },
    Motion { x: i32, y: i32 },
    /// The pointer has left, or the press has ended otherwise.
    Gone,
    Destroyed,
    Other,
}

/// A number of sixteen bits, with its sign.
pub open spec fn signed_word(word: int) -> int {
    if word < 0x8000 {
        word
    } else {
        word - 0x10000
    }
}

/// The point that a message carries: its place from the left in the lower sixteen
/// bits, and from the top in the upper ones.
pub open spec fn point_of(packed: u32) -> (int, int) {
    (signed_word(packed as int % 0x10000), signed_word(packed as int / 0x10000))
}

/// What a message says.
pub open spec fn input_of(message: u32, wparam: usize, packed: u32) -> Input {
    let x = point_of(packed).0 as i32;
    let y = point_of(packed).1 as i32;
    if message == WM_PAINT {
        Input::Paint
    } else if message == WM_ERASEBKGND {
        Input::Erase
    } else if message == WM_CLOSE {
        Input::Close
    } else if message == WM_MOUSEACTIVATE {
        Input::Activate
    } else if message == WM_SIZE {
        Input::Resized
    } else if message == WM_DPICHANGED {
        Input::Resolution(
            if wparam as int % 0x10000 == 0 {
                1
            } else {
                (wparam as int % 0x10000) as u32
            },
        )
    } else if message == WM_TIMER && wparam == RETRY_TIMER {
        Input::Retry
    } else if message == WM_LBUTTONDOWN {
        Input::Down { x, y }
    } else if message == WM_LBUTTONUP {
        Input::Up { x, y }
    } else if message == WM_MOUSEMOVE {
        Input::Motion { x, y }
    } else if message == WM_MOUSELEAVE || message == WM_CAPTURECHANGED || message
        == WM_CANCELMODE {
        Input::Gone
    } else if message == WM_NCDESTROY {
        Input::Destroyed
    } else {
        Input::Other
    }
}

/// A number of sixteen bits, with its sign.
fn signed(word: u32) -> (r: i32)
    requires
        word < 0x10000,
    ensures
        r == signed_word(word as int),
{
    if word < 0x8000 {
        word as i32
    } else {
        word as i32 - 0x10000
    }
}

/// What a message says; `packed` are the lower thirty-two bits of its second
/// parameter.
pub fn classify(message: u32, wparam: usize, packed: u32) -> (r: Input)
    ensures
        r == input_of(message, wparam, packed),
{
    let x: i32 = signed(packed % 0x10000);
    let y: i32 = signed(packed / 0x10000);
    if message == WM_PAINT {
        Input::Paint
    } else if message == WM_ERASEBKGND {
        Input::Erase
    } else if message == WM_CLOSE {
        Input::Close
    } else if message == WM_MOUSEACTIVATE {
        Input::Activate
    } else if message == WM_SIZE {
        Input::Resized
    } else if message == WM_DPICHANGED {
        let dpi: u32 = (wparam % 0x10000) as u32;
        Input::Resolution(
            if dpi == 0 {
                1
            } else {
                dpi
            },
        )
    } else if message == WM_TIMER && wparam == RETRY_TIMER {
        Input::Retry
    } else if message == WM_LBUTTONDOWN {
        Input::Down { x, y }
    } else if message == WM_LBUTTONUP {
        Input::Up { x, y }
    } else if message == WM_MOUSEMOVE {
        Input::Motion { x, y }
    } else if message == WM_MOUSELEAVE || message == WM_CAPTURECHANGED || message
        == WM_CANCELMODE {
        Input::Gone
    } else if message == WM_NCDESTROY {
        Input::Destroyed
    } else {
        Input::Other
    }
}

/// What a window does about a message.
#[derive(Clone, Copy, Debug, PartialEq, Eq)]
pub enum Step {
    /// The system decides.
    Default,
    /// The message is answered, and nothing else is to be done.
    Return(i64),
    /// The thread ends.
    Quit,
    /// The window is drawn, and the message is answered with zero, as by all that
    /// follow.
    Paint,
    /// What is drawn takes the window's size.
    Resize,
    /// The pointer is let go, the window finds its place and size anew, and is drawn.
    Reposition,
    /// The timer ends, and the window is drawn.
    Retry,
    /// The pointer is held, where something is pressed, and the window is drawn,
    /// where it shows that.
    Press { hold: bool, redraw: bool },
    /// The pointer is let go, what the user did is reported, and the window is drawn.
    Click(Option<(Owner, RendererEvent)>),
    /// The window wants to know when the pointer leaves, and is drawn.
    Track,
    /// The pointer is let go, and the window is drawn.
    Release,
    /// The window is gone; the system decides.
    Detach,
}

/// Whether the window is put into its place again: its resolution has changed by
/// that, and it was not tried too often.
pub fn place_again(done: u32, before: u32, after: u32) -> (r: bool)
    ensures
        r == (before != after && done < MAX_PLACINGS),
{
    before != after && done < MAX_PLACINGS
}

/// Whether the window is being put into its place. Moving it may ask for that again,
/// which is then not done.
#[derive(Clone, Copy, Debug, PartialEq, Eq, Structural)]
pub struct Placing {
    pub active: bool,
}

impl Placing {
    /// Begins; the result is whether it may go on.
    pub fn begin(&mut self) -> (r: bool)
        ensures
            r == !old(self).active,
            final(self).active,
    {
        let free: bool = !self.active;
        self.active = true;
        free
    }

    /// Ends.
    pub fn end(&mut self)
        ensures
            !final(self).active,
    {
        self.active = false;
    }
}

/// The first error is kept.
pub open spec fn first_error(error: Option<Seq<char>>, next: Seq<char>) -> Option<Seq<char>> {
    match error {
        Some(text) => Some(text),
        None => Some(next),
    }
}

/// The view of an optional text.
pub open spec fn text_view(text: Option<String>) -> Option<Seq<char>> {
    match text {
        Some(text) => Some(text@),
        None => None,
    }
}

/// Keeps the first error.
pub fn keep_first(slot: &mut Option<String>, error: String)
    ensures
        text_view(*final(slot)) == first_error(text_view(*old(slot)), error@),
{
    if slot.is_none() {
        *slot = Some(error);
    }
}

/// The error that was met, if there was one.
pub fn health_of(slot: &Option<String>) -> (r: Result<(), String>)
    ensures
        match r {
            Ok(()) => slot is None,
            Err(error) => text_view(*slot) == Some(error@),
        },
{
    match slot {
        Some(error) => Err(error.clone()),
        None => Ok(()),
    }
}

/// What comes of showing a frame: nothing can go wrong with a window that goes; else
/// the error of finding its place comes first, and then the one that the window has
/// met.
pub open spec fn shown_outcome(
    goes: bool,
    placed: Result<(), Seq<char>>,
    error: Option<Seq<char>>,
) -> Result<(), Seq<char>> {
    if goes {
        Ok(())
    } else if placed is Err {
        placed
    } else {
        match error {
            Some(error) => Err(error),
            None => Ok(()),
        }
    }
}

/// The view of an outcome.
pub open spec fn outcome_view(r: Result<(), String>) -> Result<(), Seq<char>> {
    match r {
        Ok(()) => Ok(()),
        Err(error) => Err(error@),
    }
}

/// What comes of showing a frame, for a window that goes or finds its place, and the
/// error that it has met.
pub fn shown_result(goes: bool, placed: Result<(), String>, error: &Option<String>) -> (r: Result<
    (),
    String,
>)
    ensures
        outcome_view(r) == shown_outcome(goes, outcome_view(placed), text_view(*error)),
{
    if goes {
        return Ok(());
    }
    match placed {
        Err(error) => Err(error),
        Ok(()) => health_of(error),
    }
}

} // verus!
