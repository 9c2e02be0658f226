//! What the window of the strip does for a frame and for a message.
#[allow(unused_imports)]
use super::{
    after_frame, asked, given_to, step_for, updated, window_step, with_new_look, HostMessage, HostStepView, Placement,
    SystemColors, WindowStep, XamlHostView,
};
#[allow(unused_imports)]
use crate::geometry::Rect;
#[allow(unused_imports)]
use crate::message::RenderSnapshotView;
#[allow(unused_imports)]
use crate::state::{same_frame_content, Owner};
#[allow(unused_imports)]
use crate::theme::{palette_for, strip_of, OsVersion};
use vstd::prelude::*;

verus! {

/// Whether a frame is to be seen: it asks for it, has candidates, and a valid place.
pub open spec fn to_be_seen(s: RenderSnapshotView) -> bool {
    s.visible && s.items.len() > 0 && s.anchor is Some && s.anchor->0.valid
}

/// A frame that is to be seen, and was not laid out yet, is laid out as it is and shown at
/// its own place; one that is not to be seen takes the window off the screen.
pub proof fn law_frame_is_laid_out_at_its_place(
    host: XamlHostView,
    s: RenderSnapshotView,
    colors: SystemColors,
    version: OsVersion,
)
    ensures
        !to_be_seen(s) ==> step_for(host, s, colors, version) == HostStepView::Conceal,
        to_be_seen(s) && (host.last is None || !same_frame_content(host.last->0, s)) ==> step_for(
            host,
            s,
            colors,
            version,
        ) == HostStepView::Rebuild(
            strip_of(s, palette_for(host.palette, colors), version),
            s.anchor->0,
        ),
{
}

/// A frame that follows one that was not on the screen is laid out, though the content be
/// the same.
pub proof fn law_hidden_frame_is_laid_out_again(
    host: XamlHostView,
    hidden: RenderSnapshotView,
    s: RenderSnapshotView,
    colors: SystemColors,
    version: OsVersion,
)
    requires
        !hidden.visible || hidden.anchor is None || !hidden.anchor->0.valid,
        to_be_seen(s),
    ensures
        step_for(after_frame(host, hidden, colors), s, colors, version) is Rebuild,
{
}

/// Whatever is shown, the host remembers the last frame; its connection stays, and its
/// colours once it has them.
pub proof fn law_last_frame_is_remembered(
    host: XamlHostView,
    s: RenderSnapshotView,
    colors: SystemColors,
)
    ensures
        after_frame(host, s, colors).last == Some(s),
        after_frame(host, s, colors).owner == host.owner,
        host.palette is Some ==> after_frame(host, s, colors).palette == host.palette,
{
}

/// The window belongs to the connection that it was given to; the frame of another is
/// forgotten, and that of the same one stays.
pub proof fn law_window_belongs_to_one_connection(host: XamlHostView, owner: Owner)
    ensures
        given_to(host, owner).owner == owner,
        owner != host.owner ==> given_to(host, owner).last is None,
        owner == host.owner ==> given_to(host, owner).last == host.last,
        given_to(host, owner).palette == host.palette,
{
}

/// A new size is handed to the control as it is, and a new place is taken as suggested.
pub proof fn law_sizes_are_passed_on(width: u16, height: u16, size: u32, suggested: Rect)
    requires
        size == width + 0x10000 * height,
        0 <= suggested.right - suggested.left <= i32::MAX,
        0 <= suggested.bottom - suggested.top <= i32::MAX,
    ensures
        window_step(0x0005, size, true, suggested) == (WindowStep::ResizeChild {
            width: width as i32,
            height: height as i32,
        }),
        window_step(0x0005, size, false, suggested) == WindowStep::Ignore,
        ({
            let step = window_step(0x02e0, size, true, suggested);
            &&& step is MoveTo
            &&& step->MoveTo_0.x == suggested.left
            &&& step->MoveTo_0.y == suggested.top
            &&& step->MoveTo_0.x + step->MoveTo_0.width == suggested.right
            &&& step->MoveTo_0.y + step->MoveTo_0.height == suggested.bottom
        }),
{
    assert(size as int % 0x10000 == width && size as int / 0x10000 == height);
}

/// The thread's three messages are told apart; every other goes to its window.
pub proof fn law_messages_are_told_apart(kind: u32)
    ensures
        asked(kind) == HostMessage::Update <==> kind == 0x800a,
        asked(kind) == HostMessage::Quit <==> kind == 0x800b,
        asked(kind) == HostMessage::ThemeChanged <==> kind == 0x800c,
{
}

/// What waits in the mailbox is shown for its connection, whose window it becomes; where the
/// connection has nothing to show any more, the window and what it showed go.
pub proof fn law_waiting_frame_is_shown(
    host: XamlHostView,
    owner: Owner,
    s: RenderSnapshotView,
    colors: SystemColors,
    version: OsVersion,
)
    ensures
        updated(host, None, colors, version) == (host, None::<HostStepView>),
        updated(host, Some((owner, None)), colors, version).1 == Some(HostStepView::Withdraw),
        updated(host, Some((owner, None)), colors, version).0.last is None,
        updated(host, Some((owner, None)), colors, version).0.owner == owner,
        ({
            let (after, step) = updated(host, Some((owner, Some(s))), colors, version);
            &&& after.owner == owner
            &&& after.last == Some(s)
            &&& !to_be_seen(s) ==> step == Some(HostStepView::Conceal)
            &&& to_be_seen(s) && owner != host.owner ==> step == Some(
                HostStepView::Rebuild(
                    strip_of(s, palette_for(host.palette, colors), version),
                    s.anchor->0,
                ),
            )
        }),
{
}

/// When the look changes, the frame of the connection that is shown is laid out anew in the
/// colours that the system has now; where another connection is shown, only the colours are
/// forgotten.
pub proof fn law_new_look_takes_new_colours(
    host: XamlHostView,
    s: RenderSnapshotView,
    owner: Option<Owner>,
    colors: SystemColors,
    version: OsVersion,
)
    requires
        host.last == Some(s),
        to_be_seen(s),
    ensures
        owner == Some(host.owner) ==> with_new_look(host, owner, colors, version).1 == Some(
            HostStepView::Rebuild(strip_of(s, palette_for(None, colors), version), s.anchor->0),
        ) && with_new_look(host, owner, colors, version).0.last == Some(s),
        owner != Some(host.owner) ==> with_new_look(host, owner, colors, version).1 is None
            && with_new_look(host, owner, colors, version).0.palette is None,
{
}

/// Colours are looked up only for a frame that is laid out, and are then those of the strip.
pub proof fn law_colours_come_with_the_strip(
    host: XamlHostView,
    s: RenderSnapshotView,
    colors: SystemColors,
    version: OsVersion,
)
    ensures
        step_for(host, s, colors, version) is Rebuild ==> after_frame(host, s, colors).palette
            == Some(palette_for(host.palette, colors)),
        !(step_for(host, s, colors, version) is Rebuild) ==> after_frame(host, s, colors).palette
            == host.palette,
{
}

} // verus!
