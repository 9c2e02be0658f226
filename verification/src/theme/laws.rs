//! What the strip shows of a frame, and how its parts answer to the pointer.
#[allow(unused_imports)]
use super::{
    action_after, brightness, brushes_of, faded, has_old_icons, label_of, older, palette_for,
    row_after, row_at_rest, row_plan, strip_of, system_palette, ActionLook, Brushes, Color,
    OsVersion, Palette, PointerEvent, RowLook,
};
#[allow(unused_imports)]
use crate::message::{RendererEvent, RendererEventAction, RenderItemView, RenderSnapshotView};
#[allow(unused_imports)]
use crate::text::decimal;
use vstd::prelude::*;

verus! {

/// Versions stand in one line: none is older than itself, of two different ones exactly one
/// is the older, and what is older than an older one is older.
pub proof fn law_versions_stand_in_line(a: OsVersion, b: OsVersion, c: OsVersion)
    ensures
        !older(a, a),
        a != b ==> older(a, b) != older(b, a),
        older(a, b) && older(b, c) ==> older(a, c),
        a.major < b.major ==> older(a, b),
        a.major == b.major && a.minor < b.minor ==> older(a, b),
        a.major == b.major && a.minor == b.minor && a.pack < b.pack ==> older(a, b),
        a.major == b.major && a.minor == b.minor && a.pack == b.pack && a.build < b.build
            ==> older(a, b),
{
}

/// The older icons are those of ten up to its build 22000, and of no other version.
pub proof fn law_old_icons_end_with_a_build(version: OsVersion)
    ensures
        has_old_icons(version) <==> version.major == 10 && version.minor == 0 && version.pack == 0
            && version.build < 22000,
{
}

/// A strip has a row for each candidate of its frame, in the frame's order, with its number
/// from one on and its text, and the comment after that where there is one; a tap on it
/// invokes that very candidate, where it can be chosen.
pub proof fn law_strip_has_every_row(
    s: RenderSnapshotView,
    palette: Palette,
    version: OsVersion,
    i: int,
)
    requires
        0 <= i < s.items.len() <= u32::MAX,
    ensures
        ({
            let strip = strip_of(s, palette, version);
            let row = strip.rows[i];
            let item = s.items[i];
            &&& strip.rows.len() == s.items.len()
            &&& row.ordinal == decimal((i + 1) as nat)
            &&& item.secondary_text.len() == 0 ==> row.label == item.primary_text
            &&& item.secondary_text.len() > 0 ==> row.label == item.primary_text + "  "@
                + item.secondary_text
            &&& row.selected <==> i == s.selected_index
            &&& row.tap == (if item.enabled {
                Some(
                    RendererEvent {
                        session_id: s.session_id,
                        token: s.token,
                        revision: s.revision,
                        action: RendererEventAction::ItemInvoked,
                        item_index: i as u32,
                    },
                )
            } else {
                None
            })
        }),
{
}

/// At most one row is marked, and it alone: by its ground and by the mark before it.
pub proof fn law_only_the_selected_row_is_marked(
    s: RenderSnapshotView,
    palette: Palette,
    version: OsVersion,
    i: int,
    j: int,
)
    requires
        0 <= i < s.items.len() <= u32::MAX,
        0 <= j < s.items.len(),
    ensures
        ({
            let strip = strip_of(s, palette, version);
            &&& strip.rows[i].selected && strip.rows[j].selected ==> i == j
            &&& strip.rows[i].selected ==> strip.rows[i].mark == palette.accent
                && strip.rows[i].background == faded(palette.foreground, 0x0f)
            &&& !strip.rows[i].selected ==> strip.rows[i].mark.a == 0
                && strip.rows[i].background.a == 0
        }),
{
}

/// The buttons page in their own directions, exactly where the frame has such a page; the
/// one for the emoji panel can always be tapped. A button that cannot be tapped is dimmed.
pub proof fn law_buttons_do_what_they_show(
    s: RenderSnapshotView,
    palette: Palette,
    version: OsVersion,
)
    ensures
        ({
            let strip = strip_of(s, palette, version);
            &&& strip.previous.tap is Some <==> s.can_page_previous
            &&& strip.previous.tap matches Some(event) ==> event.action
                == RendererEventAction::NavigatePrevious && event.revision == s.revision
                && event.token == s.token && event.session_id == s.session_id
            &&& strip.next.tap is Some <==> s.can_page_next
            &&& strip.next.tap matches Some(event) ==> event.action
                == RendererEventAction::NavigateNext && event.revision == s.revision
                && event.token == s.token && event.session_id == s.session_id
            &&& strip.emoji.tap matches Some(event) && event.action
                == RendererEventAction::OpenEmojiPanel && event.revision == s.revision
                && event.token == s.token && event.session_id == s.session_id
            &&& s.can_page_previous ==> strip.previous.foreground == palette.foreground
            &&& !s.can_page_previous ==> strip.previous.foreground.a == 0x5c
            &&& s.can_page_next ==> strip.next.foreground == palette.foreground
            &&& !s.can_page_next ==> strip.next.foreground.a == 0x5c
            &&& strip.previous.glyph == "\u{EDD9}"@
            &&& strip.next.glyph == "\u{EDDA}"@
        }),
{
}

/// A colour keeps its red, green and blue in whatever strength it is used.
pub proof fn law_faded_colours_keep_their_hue(color: Color, alpha: u8)
    ensures
        faded(color, alpha).r == color.r,
        faded(color, alpha).g == color.g,
        faded(color, alpha).b == color.b,
        faded(color, alpha).a == alpha,
{
}

/// Of the colours of a palette all but the ground are its foreground or its accent, the
/// ground is opaque, and from selection over hovering to pressing a row stands out more.
pub proof fn law_brushes_come_from_the_palette(palette: Palette)
    ensures
        ({
            let b = brushes_of(palette);
            &&& b.foreground == palette.foreground
            &&& b.accent == palette.accent
            &&& b.background.a == 0xff
            &&& palette.dark ==> brightness(b.background) < 128000
            &&& !palette.dark ==> brightness(b.background) >= 128000
            &&& 0 < b.selection.a < b.hover.a < b.pressed.a < b.disabled.a < b.secondary.a
            &&& b.transparent.a == 0
            &&& b.pressed_text.r == palette.foreground.r && b.pressed_text.a < b.secondary.a
        }),
{
}

/// Brightness grows with each of the three colours, with green most and with blue least; a
/// palette is dark exactly where the system's background is less than half as bright as
/// white.
pub proof fn law_dark_is_less_than_half_of_white(
    background: Color,
    foreground: Color,
    accent: Color,
)
    ensures
        system_palette(Some((background, foreground, accent))).foreground == foreground,
        system_palette(Some((background, foreground, accent))).accent == accent,
        background.r == background.g == background.b ==> system_palette(
            Some((background, foreground, accent)),
        ).dark == (background.r < 128),
        brightness(Color { r: 0, g: 1, b: 0, a: 0 }) > brightness(Color { r: 1, g: 0, b: 0, a: 0 })
            > brightness(Color { r: 0, g: 0, b: 1, a: 0 }),
{
}

/// Colours that a theme has looked up are kept, whatever the system's are by now.
pub proof fn law_known_colours_are_kept(
    palette: Palette,
    colors: Option<(Color, Color, Color)>,
    later: Option<(Color, Color, Color)>,
)
    ensures
        palette_for(Some(palette), colors) == palette,
        palette_for(Some(palette_for(None, colors)), later) == palette_for(None, colors),
{
}

/// The pointer over a row shows on its ground; a press shows on its texts and its mark too,
/// and letting go or leaving undoes all of it. One that cannot be chosen is never pressed.
pub proof fn law_rows_answer_to_the_pointer(
    look: RowLook,
    brushes: Brushes,
    selected: bool,
    enabled: bool,
)
    ensures
        row_after(look, PointerEvent::Entered, brushes, selected, enabled).background
            == brushes.hover,
        row_after(look, PointerEvent::Entered, brushes, selected, enabled).text == look.text,
        row_after(look, PointerEvent::Pressed, brushes, selected, true).background
            == brushes.pressed,
        row_after(look, PointerEvent::Pressed, brushes, selected, true).text
            == brushes.pressed_text,
        row_after(look, PointerEvent::Pressed, brushes, selected, false) == look,
        row_after(
            row_after(look, PointerEvent::Pressed, brushes, selected, true),
            PointerEvent::Released,
            brushes,
            selected,
            true,
        ) == row_at_rest(brushes, selected),
        row_after(
            row_after(
                row_at_rest(brushes, selected),
                PointerEvent::Entered,
                brushes,
                selected,
                enabled,
            ),
            PointerEvent::Exited,
            brushes,
            selected,
            enabled,
        ) == row_at_rest(brushes, selected),
{
}

/// A button that can be tapped answers to the pointer and is as before once the pointer has
/// left; one that cannot does not answer.
pub proof fn law_buttons_answer_to_the_pointer(
    look: ActionLook,
    event: PointerEvent,
    brushes: Brushes,
)
    ensures
        action_after(look, event, brushes, false) == look,
        action_after(look, PointerEvent::Entered, brushes, true).background == brushes.hover,
        action_after(look, PointerEvent::Pressed, brushes, true).background == brushes.pressed,
        action_after(look, PointerEvent::Pressed, brushes, true).text == brushes.pressed_text,
        action_after(look, PointerEvent::Exited, brushes, true) == (ActionLook {
            background: brushes.transparent,
            text: brushes.foreground,
        }),
        action_after(look, PointerEvent::Released, brushes, true) == action_after(
            look,
            PointerEvent::Exited,
            brushes,
            true,
        ),
{
}

/// Where the system's colours cannot be read, texts are dark on a light ground, whatever
/// the system looks like; the emoji panel has the icon that the version's font has.
pub proof fn law_unread_colours_are_light(s: RenderSnapshotView, palette: Palette, v: OsVersion)
    ensures
        !system_palette(None).dark,
        brightness(system_palette(None).foreground) < 128000,
        strip_of(s, palette, v).dark == palette.dark,
        has_old_icons(v) ==> strip_of(s, palette, v).emoji.glyph == "\u{E76E}"@,
        !has_old_icons(v) ==> strip_of(s, palette, v).emoji.glyph == "\u{F6B8}"@,
{
}

} // verus!
