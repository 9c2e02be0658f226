//! Where on a window the pointer is, and what becomes of errors.
#[allow(unused_imports)]
use super::{first_error, input_of, point_of, shown_outcome, Input};
use vstd::prelude::*;

verus! {

/// A point is read back from a message as it was put in, left of the window or above it
/// too: sixteen bits for either number, the one from the left in the lower ones.
pub proof fn law_points_can_be_read_back(x: int, y: int, packed: u32)
    requires
        -0x8000 <= x < 0x8000,
        -0x8000 <= y < 0x8000,
        packed == x % 0x10000 + 0x10000 * (y % 0x10000),
    ensures
        point_of(packed) == (x, y),
{
    let low = x % 0x10000;
    let high = y % 0x10000;
    assert((low + 0x10000 * high) / 0x10000 == high && (low + 0x10000 * high) % 0x10000 == low)
        by {
        assert(0 <= low < 0x10000);
    }
}

/// Pressing, letting go and moving are told apart, and each comes with the pointer's place.
pub proof fn law_pointer_messages_keep_the_place(wparam: usize, packed: u32, x: i32, y: i32)
    requires
        -0x8000 <= x < 0x8000,
        -0x8000 <= y < 0x8000,
        packed == x as int % 0x10000 + 0x10000 * (y as int % 0x10000),
    ensures
        input_of(0x0201, wparam, packed) == (Input::Down { x, y }),
        input_of(0x0202, wparam, packed) == (Input::Up { x, y }),
        input_of(0x0200, wparam, packed) == (Input::Motion { x, y }),
{
    law_points_can_be_read_back(x as int, y as int, packed);
}

/// A new resolution is the lower half of the message's first parameter, and never none.
pub proof fn law_resolution_is_the_lower_half(dpi: u16, upper: u16, wparam: usize, packed: u32)
    requires
        wparam == dpi + 0x10000 * upper,
    ensures
        input_of(0x02e0, wparam, packed) == Input::Resolution(
            if dpi == 0 {
                1
            } else {
                dpi as u32
            },
        ),
{
    assert(wparam as int % 0x10000 == dpi);
}

/// Of all timers only the window's own asks to draw again; a pointer that leaves and one
/// that is taken away end a press alike.
pub proof fn law_other_messages_are_told_apart(wparam: usize, packed: u32)
    ensures
        (input_of(0x0113, wparam, packed) == Input::Retry) == (wparam == 1),
        wparam != 1 ==> input_of(0x0113, wparam, packed) == Input::Other,
        input_of(0x02a3, wparam, packed) == Input::Gone,
        input_of(0x0215, wparam, packed) == Input::Gone,
        input_of(0x001f, wparam, packed) == Input::Gone,
        input_of(0x000f, wparam, packed) == Input::Paint,
        input_of(0x0014, wparam, packed) == Input::Erase,
        input_of(0x0010, wparam, packed) == Input::Close,
        input_of(0x0021, wparam, packed) == Input::Activate,
        input_of(0x0005, wparam, packed) == Input::Resized,
        input_of(0x0082, wparam, packed) == Input::Destroyed,
{
}

/// Whatever comes after it, the first error is the one that is kept.
pub proof fn law_first_error_stays(error: Seq<char>, next: Seq<char>, later: Seq<char>)
    ensures
        first_error(None, error) == Some(error),
        first_error(first_error(None, error), next) == Some(error),
        first_error(first_error(first_error(None, error), next), later) == Some(error),
{
}

/// A window that goes reports no error; one that stays reports that its place was not found
/// before what it met otherwise, and nothing where neither is there.
pub proof fn law_shown_window_reports_its_errors(
    missing: Seq<char>,
    met: Seq<char>,
    placed: Result<(), Seq<char>>,
    error: Option<Seq<char>>,
)
    ensures
        shown_outcome(true, placed, error) is Ok,
        shown_outcome(false, Err(missing), error) == Err::<(), Seq<char>>(missing),
        shown_outcome(false, Ok(()), Some(met)) == Err::<(), Seq<char>>(met),
        shown_outcome(false, Ok(()), None) is Ok,
{
}

} // verus!
