//! What the preview's window does about its buttons and its worker, and where it starts.
#[allow(unused_imports)]
use super::{
    on_close, on_completion, on_message, on_refresh, scaled, start_left, start_place,
    theme_status, ActionView, Command, Completion, Controller, WindowMessage,
};
#[allow(unused_imports)]
use crate::geometry::Rect;
use vstd::prelude::*;

verus! {

/// A refresh is sent to the worker exactly where none is under way and the window stays; the
/// window then waits, and its button with it.
pub proof fn law_idle_window_refreshes(c: Controller)
    ensures
        !c.busy && !c.closing ==> on_refresh(c).0.busy && on_refresh(c).1.len() > 0 && on_refresh(
            c,
        ).1[0] == ActionView::EnableRefresh(false) && on_refresh(c).1.last() == ActionView::Send(
            Command::Refresh,
        ),
        c.busy || c.closing ==> on_refresh(c).0 == c && on_refresh(c).1.len() == 0,
        on_refresh(c).0.closing == c.closing,
{
}

/// Closing is sent to the worker once, whether or not a refresh is under way.
pub proof fn law_window_closes_once(c: Controller)
    ensures
        on_close(c).0.closing,
        on_close(c).0.busy == c.busy,
        !c.closing ==> on_close(c).1.len() > 0 && on_close(c).1.last() == ActionView::Send(
            Command::Close,
        ),
        c.closing ==> on_close(c).1.len() == 0,
        on_close(on_close(c).0).1.len() == 0,
{
}

/// When a refresh has ended, another may be asked for; its outcome is shown, and an error is
/// shown to the user besides. While the window closes, nothing is shown of it.
pub proof fn law_outcome_of_a_refresh_is_shown(c: Controller, result: Result<String, String>)
    ensures
        ({
            let (after, actions) = on_completion(c, Completion::Refreshed(result));
            &&& !after.busy
            &&& after.closing == c.closing
            &&& c.closing ==> actions.len() == 0
            &&& !c.closing ==> actions.len() >= 2 && actions[0] == ActionView::EnableRefresh(true)
            &&& !c.closing && result is Ok ==> actions[1] == ActionView::Status(result->Ok_0@)
                && actions.len() == 2
            &&& !c.closing && result is Err ==> actions.last() == ActionView::ShowError(
                result->Err_0@,
            )
        }),
{
}

/// The window ends when its worker has, and at nothing else that the worker reports.
pub proof fn law_window_ends_with_its_worker(c: Controller, result: Result<String, String>)
    ensures
        on_completion(c, Completion::Closed).1 == seq![ActionView::Quit(0)],
        forall|i: int|
            0 <= i < on_completion(c, Completion::Refreshed(result)).1.len() ==> !((
            #[trigger] on_completion(c, Completion::Refreshed(result)).1[i]) is Quit),
{
}

/// The buttons are told apart by the lower half of their numbers; closing the window is as
/// pressing its button.
pub proof fn law_buttons_are_told_apart(c: Controller, id: usize)
    ensures
        id % 0x1_0000 == 1 ==> on_message(c, WindowMessage::Command(id)) == (
            true,
            on_refresh(c).0,
            on_refresh(c).1,
        ),
        id % 0x1_0000 == 2 ==> on_message(c, WindowMessage::Command(id)) == on_message(
            c,
            WindowMessage::Close,
        ),
        id % 0x1_0000 != 1 && id % 0x1_0000 != 2 ==> on_message(c, WindowMessage::Command(id)).1
            == c && on_message(c, WindowMessage::Command(id)).2.len() == 0,
        on_message(c, WindowMessage::Close).0 && on_message(c, WindowMessage::Close).1.closing,
        !on_message(c, WindowMessage::Other).0,
{
}

/// At a new resolution the window takes the place that is suggested, and then lays its
/// controls out, as it does at a new size.
pub proof fn law_window_follows_the_resolution(c: Controller, area: Rect)
    requires
        0 <= area.right - area.left <= i32::MAX,
        0 <= area.bottom - area.top <= i32::MAX,
    ensures
        ({
            let actions = on_message(c, WindowMessage::DpiChanged(area)).2;
            &&& actions.len() == 2
            &&& actions[0] is MoveTo
            &&& actions[0]->MoveTo_0.x == area.left
            &&& actions[0]->MoveTo_0.y == area.top
            &&& actions[0]->MoveTo_0.x + actions[0]->MoveTo_0.width == area.right
            &&& actions[0]->MoveTo_0.y + actions[0]->MoveTo_0.height == area.bottom
            &&& actions[1] == ActionView::Layout
        }),
        on_message(c, WindowMessage::Size).2 == seq![ActionView::Layout],
{
}

/// The window starts in the middle of the area's width and, where the area is high enough,
/// within its height.
pub proof fn law_window_starts_in_the_area(work: Rect)
    requires
        440 <= work.right - work.left <= i32::MAX,
        180 <= work.bottom - work.top <= i32::MAX,
    ensures
        ({
            let place = start_place(work, 96);
            &&& place.width == 440
            &&& place.height == 180
            &&& work.left <= place.x
            &&& place.x + 440 <= work.right
            &&& -1 <= (place.x - work.left) - (work.right - (place.x + 440)) <= 1
            &&& work.top <= place.y
            &&& place.y + 180 <= work.bottom
            &&& 2 * place.y >= work.top + work.bottom - 360
        }),
{
    assert(scaled(440, 96) == 440);
    assert(scaled(180, 96) == 180);
    assert(scaled(120, 96) == 120);
}

/// A theme that is shown in place of another is named together with the other; the one that
/// was asked for is named alone.
pub proof fn law_fallback_names_both_themes(requested: Seq<char>, selected: Seq<char>)
    ensures
        requested == selected ==> theme_status(requested, selected) == "当前主题："@ + selected,
        requested != selected ==> theme_status(requested, selected) == "主题 "@ + requested
            + " 不可用，已回退到 "@ + selected,
{
}

} // verus!
