//! What the candidate strip is made of: its colours, its buttons and its rows, and
//! how they answer to the pointer.
use crate::message::{RenderSnapshot, RendererEvent, RendererEventAction};
#[allow(unused_imports)]
use crate::message::{RenderItemView, RenderSnapshotView};
#[allow(unused_imports)]
use crate::text::decimal;
use crate::text::{decimal_text, join3};
use vstd::prelude::*;

pub mod laws;

verus! {

/// A version of the operating system, compared from the first number to the last.
#[derive(Clone, Copy, Debug, PartialEq, Eq, Structural)]
pub struct OsVersion {
    pub major: u32,
    pub minor: u32,
    pub pack: u32,
    pub build: u32,
}

/// Whether a version is older than another.
pub open spec fn older(a: OsVersion, b: OsVersion) -> bool {
    a.major < b.major || (a.major == b.major && (a.minor < b.minor || (a.minor == b.minor && (
    a.pack < b.pack || (a.pack == b.pack && a.build < b.build)))))
}

impl OsVersion {
    /// A version of four numbers.
    pub fn new(major: u32, minor: u32, pack: u32, build: u32) -> (r: Self)
        ensures
            r == (OsVersion { major, minor, pack, build }),
    {
        OsVersion { major, minor, pack, build }
    }

    /// Whether this version is older than another.
    pub fn before(&self, other: &OsVersion) -> (r: bool)
        ensures
            r == older(*self, *other),
    {
        if self.major != other.major {
            self.major < other.major
        } else if self.minor != other.minor {
            self.minor < other.minor
        } else if self.pack != other.pack {
            self.pack < other.pack
        } else {
            self.build < other.build
        }
    }
}

/// Whether a version has the older icons: all of ten before eleven.
pub open spec fn has_old_icons(version: OsVersion) -> bool {
    !older(version, OsVersion { major: 10, minor: 0, pack: 0, build: 0 }) && older(
        version,
        OsVersion { major: 10, minor: 0, pack: 0, build: 22000 },
    )
}

/// Whether a version has the older icons.
fn old_icons(version: OsVersion) -> (r: bool)
    ensures
        r == has_old_icons(version),
{
    !version.before(&OsVersion::new(10, 0, 0, 0)) && version.before(
        &OsVersion::new(10, 0, 0, 22000),
    )
}

/// The font that has a version's icons.
pub fn icon_font_for_version(version: OsVersion) -> (r: &'static str)
    ensures
        r@ == (if has_old_icons(version) {
            "Segoe MDL2 Assets"@
        } else {
            "Segoe Fluent Icons"@
        }),
{
    if old_icons(version) {
        "Segoe MDL2 Assets"
    } else {
        "Segoe Fluent Icons"
    }
}

/// The icon of the emoji panel: one that the version's font has.
pub fn emoji_glyph_for_version(version: OsVersion) -> (r: &'static str)
    ensures
        r@ == (if has_old_icons(version) {
            "\u{E76E}"@
        } else {
            "\u{F6B8}"@
        }),
{
    if old_icons(version) {
        "\u{E76E}"
    } else {
        "\u{F6B8}"
    }
}

/// A colour: how opaque it is, and its red, green and blue.
#[derive(Clone, Copy, Debug, PartialEq, Eq, Structural)]
pub struct Color {
    pub a: u8,
    pub r: u8,
    pub g: u8,
    pub b: u8,
}

/// A colour with another opacity.
pub open spec fn faded(color: Color, alpha: u8) -> Color {
    Color { a: alpha, ..color }
}

/// A colour with another opacity.
pub fn with_alpha(color: Color, alpha: u8) -> (r: Color)
    ensures
        r == faded(color, alpha),
{
    Color { a: alpha, r: color.r, g: color.g, b: color.b }
}

/// How bright a colour is, in thousandths.
pub open spec fn brightness(color: Color) -> int {
    299 * color.r + 587 * color.g + 114 * color.b
}

/// Whether a background is dark.
pub fn is_dark(background: Color) -> (r: bool)
    ensures
        r == (brightness(background) < 128000),
{
    let luminance: u32 = 299 * (background.r as u32) + 587 * (background.g as u32) + 114 * (
    background.b as u32);
    luminance < 128000
}

/// The strip's colours.
#[derive(Clone, Copy, Debug, PartialEq, Eq, Structural)]
pub struct Palette {
    pub foreground: Color,
    pub accent: Color,
    pub dark: bool,
}

/// The strip's colours where the system's cannot be read.
pub open spec fn plain_palette() -> Palette {
    Palette {
        foreground: Color { a: 0xff, r: 0x20, g: 0x20, b: 0x20 },
        accent: Color { a: 0xff, r: 0x00, g: 0x78, b: 0xd4 },
        dark: false,
    }
}

/// The colours for the system's background, foreground and accent.
pub open spec fn system_palette(colors: Option<(Color, Color, Color)>) -> Palette {
    match colors {
        Some((background, foreground, accent)) => Palette {
            foreground,
            accent,
            dark: brightness(background) < 128000,
        },
        None => plain_palette(),
    }
}

/// The colours that a theme uses: the ones that it has, or else the system's.
pub open spec fn palette_for(
    palette: Option<Palette>,
    colors: Option<(Color, Color, Color)>,
) -> Palette {
    match palette {
        Some(palette) => palette,
        None => system_palette(colors),
    }
}

/// The background behind a translucent strip.
pub open spec fn base_color(dark: bool) -> Color {
    if dark {
        Color { a: 0xff, r: 0x1c, g: 0x1c, b: 0x1c }
    } else {
        Color { a: 0xff, r: 0xf3, g: 0xf3, b: 0xf3 }
    }
}

impl Palette {
    /// The colours for the system's background, foreground and accent; where one of
    /// them cannot be read, none of them counts.
    pub fn system(colors: Option<(Color, Color, Color)>) -> (r: Self)
        ensures
            r == system_palette(colors),
    {
        match colors {
            Some((background, foreground, accent)) => Palette {
                foreground,
                accent,
                dark: is_dark(background),
            },
            None => Palette {
                foreground: Color { a: 0xff, r: 0x20, g: 0x20, b: 0x20 },
                accent: Color { a: 0xff, r: 0x00, g: 0x78, b: 0xd4 },
                dark: false,
            },
        }
    }

    /// The background behind the translucent strip.
    pub fn acrylic_base(self) -> (r: Color)
        ensures
            r == base_color(self.dark),
    {
        if self.dark {
            Color { a: 0xff, r: 0x1c, g: 0x1c, b: 0x1c }
        } else {
            Color { a: 0xff, r: 0xf3, g: 0xf3, b: 0xf3 }
        }
    }
}

/// The colours of all parts of the strip.
#[derive(Clone, Copy, Debug, PartialEq, Eq, Structural)]
pub struct Brushes {
    pub foreground: Color,
    pub secondary: Color,
    pub disabled: Color,
    pub accent: Color,
    pub background: Color,
    pub border: Color,
    pub selection: Color,
    pub hover: Color,
    pub pressed: Color,
    pub pressed_text: Color,
    pub transparent: Color,
}

/// The colours of all parts of the strip.
pub open spec fn brushes_of(palette: Palette) -> Brushes {
    Brushes {
        foreground: palette.foreground,
        secondary: faded(palette.foreground, 0xa0),
        disabled: faded(palette.foreground, 0x5c),
        accent: palette.accent,
        background: base_color(palette.dark),
        border: faded(palette.foreground, 0x24),
        selection: faded(palette.foreground, 0x0f),
        hover: faded(palette.foreground, 0x20),
        pressed: faded(palette.foreground, 0x34),
        pressed_text: faded(palette.foreground, 0x70),
        transparent: Color { a: 0, r: 0, g: 0, b: 0 },
    }
}

/// The colours of all parts of the strip.
pub fn brushes(palette: Palette) -> (r: Brushes)
    ensures
        r == brushes_of(palette),
{
    Brushes {
        foreground: palette.foreground,
        secondary: with_alpha(palette.foreground, 0xa0),
        disabled: with_alpha(palette.foreground, 0x5c),
        accent: palette.accent,
        background: palette.acrylic_base(),
        border: with_alpha(palette.foreground, 0x24),
        selection: with_alpha(palette.foreground, 0x0f),
        hover: with_alpha(palette.foreground, 0x20),
        pressed: with_alpha(palette.foreground, 0x34),
        pressed_text: with_alpha(palette.foreground, 0x70),
        transparent: Color { a: 0, r: 0, g: 0, b: 0 },
    }
}

/// Space around something, in units of which there are ninety-six to the inch.
#[derive(Clone, Copy, Debug, PartialEq, Eq, Structural)]
pub struct Thickness {
    pub left: i32,
    pub top: i32,
    pub right: i32,
    pub bottom: i32,
}

/// A button beside the candidates.
#[derive(Debug, PartialEq, Eq)]
pub struct ActionPlan {
    pub glyph: String,
    pub font: String,
    pub font_size: u32,
    pub margin: Thickness,
    pub foreground: Color,
    /// What a tap reports; none where the button is disabled, which then does not
    /// answer to the pointer at all.
    pub tap: Option<RendererEvent>,
}

#[verifier::ext_equal]
pub ghost struct ActionPlanView {
    pub glyph: Seq<char>,
    pub font: Seq<char>,
    pub font_size: u32,
    pub margin: Thickness,
    pub foreground: Color,
    pub tap: Option<RendererEvent>,
}

impl View for ActionPlan {
    type V = ActionPlanView;

    open spec fn view(&self) -> ActionPlanView {
        ActionPlanView {
            glyph: self.glyph@,
            font: self.font@,
            font_size: self.font_size,
            margin: self.margin,
            foreground: self.foreground,
            tap: self.tap,
        }
    }
}

/// What a tap on a frame reports: the frame's own session, token and revision.
pub open spec fn tap_event(s: RenderSnapshotView, action: RendererEventAction, item_index: u32) ->
    RendererEvent {
    RendererEvent {
        session_id: s.session_id,
        token: s.token,
        revision: s.revision,
        action,
        item_index,
    }
}

/// A button beside the candidates.
pub open spec fn action_plan(
    s: RenderSnapshotView,
    brushes: Brushes,
    version: OsVersion,
    glyph: Seq<char>,
    font_size: u32,
    margin: Thickness,
    enabled: bool,
    action: RendererEventAction,
) -> ActionPlanView {
    ActionPlanView {
        glyph,
        font: if has_old_icons(version) {
            "Segoe MDL2 Assets"@
        } else {
            "Segoe Fluent Icons"@
        },
        font_size,
        margin,
        foreground: if enabled {
            brushes.foreground
        } else {
            brushes.disabled
        },
        tap: if enabled {
            Some(tap_event(s, action, 0))
        } else {
            None
        },
    }
}

/// A button beside the candidates.
pub fn append_action(
    snapshot: &RenderSnapshot,
    brushes: &Brushes,
    version: OsVersion,
    glyph: &str,
    font_size: u32,
    margin: Thickness,
    enabled: bool,
    action: RendererEventAction,
) -> (r: ActionPlan)
    ensures
        r@ == action_plan(
            snapshot@,
            *brushes,
            version,
            glyph@,
            font_size,
            margin,
            enabled,
            action,
        ),
{
    ActionPlan {
        glyph: glyph.to_owned(),
        font: icon_font_for_version(version).to_owned(),
        font_size,
        margin,
        foreground: if enabled {
            brushes.foreground
        } else {
            brushes.disabled
        },
        tap: if enabled {
            Some(
                RendererEvent {
                    session_id: snapshot.session_id,
                    token: snapshot.token,
                    revision: snapshot.revision,
                    action,
                    item_index: 0,
                },
            )
        } else {
            None
        },
    }
}

/// A candidate's row.
#[derive(Debug, PartialEq, Eq)]
pub struct RowPlan {
    pub ordinal: String,
    pub label: String,
    pub selected: bool,
    /// The row's colour at rest.
    pub background: Color,
    /// The colour of the mark before a selected candidate.
    pub mark: Color,
    /// What a tap reports; none where the candidate is disabled.
    pub tap: Option<RendererEvent>,
}

#[verifier::ext_equal]
pub ghost struct RowPlanView {
    pub ordinal: Seq<char>,
    pub label: Seq<char>,
    pub selected: bool,
    pub background: Color,
    pub mark: Color,
    pub tap: Option<RendererEvent>,
}

impl View for RowPlan {
    type V = RowPlanView;

    open spec fn view(&self) -> RowPlanView {
        RowPlanView {
            ordinal: self.ordinal@,
            label: self.label@,
            selected: self.selected,
            background: self.background,
            mark: self.mark,
            tap: self.tap,
        }
    }
}

/// A candidate's text: with its comment, where it has one.
pub open spec fn label_of(item: RenderItemView) -> Seq<char> {
    if item.secondary_text.len() == 0 {
        item.primary_text
    } else {
        item.primary_text + "  "@ + item.secondary_text
    }
}

/// A candidate's row. Rows are counted from one.
pub open spec fn row_plan(s: RenderSnapshotView, brushes: Brushes, i: int) -> RowPlanView {
    let item = s.items[i];
    let selected = i as u32 == s.selected_index;
    RowPlanView {
        ordinal: decimal((i + 1) as nat),
        label: label_of(item),
        selected,
        background: if selected {
            brushes.selection
        } else {
            brushes.transparent
        },
        mark: if selected {
            brushes.accent
        } else {
            brushes.transparent
        },
        tap: if item.enabled {
            Some(tap_event(s, RendererEventAction::ItemInvoked, i as u32))
        } else {
            None
        },
    }
}

/// A candidate's row.
fn candidate_row(snapshot: &RenderSnapshot, brushes: &Brushes, i: usize) -> (r: RowPlan)
    requires
        i < snapshot.items.len(),
    ensures
        r@ == row_plan(snapshot@, *brushes, i as int),
{
    let selected: bool = i as u32 == snapshot.selected_index;
    let secondary: &str = snapshot.items[i].secondary_text.as_str();
    let label: String = if secondary.is_empty() {
        snapshot.items[i].primary_text.clone()
    } else {
        join3(&snapshot.items[i].primary_text, "  ", secondary)
    };
    assert(snapshot@.items[i as int] == snapshot.items[i as int]@);
    RowPlan {
        ordinal: decimal_text((i + 1) as u64),
        label,
        selected,
        background: if selected {
            brushes.selection
        } else {
            brushes.transparent
        },
        mark: if selected {
            brushes.accent
        } else {
            brushes.transparent
        },
        tap: if snapshot.items[i].enabled {
            Some(
                RendererEvent {
                    session_id: snapshot.session_id,
                    token: snapshot.token,
                    revision: snapshot.revision,
                    action: RendererEventAction::ItemInvoked,
                    item_index: i as u32,
                },
            )
        } else {
            None
        },
    }
}

/// The strip: its colours, the buttons from left to right, and the rows.
#[derive(Debug, PartialEq, Eq)]
pub struct StripPlan {
    pub dark: bool,
    pub brushes: Brushes,
    pub previous: ActionPlan,
    pub next: ActionPlan,
    pub emoji: ActionPlan,
    pub rows: Vec<RowPlan>,
}

#[verifier::ext_equal]
pub ghost struct StripPlanView {
    pub dark: bool,
    pub brushes: Brushes,
    pub previous: ActionPlanView,
    pub next: ActionPlanView,
    pub emoji: ActionPlanView,
    pub rows: Seq<RowPlanView>,
}

/// The views of rows, in order.
pub open spec fn row_views(s: Seq<RowPlan>) -> Seq<RowPlanView> {
    Seq::new(s.len(), |i: int| s[i]@)
}

impl View for StripPlan {
    type V = StripPlanView;

    open spec fn view(&self) -> StripPlanView {
        StripPlanView {
            dark: self.dark,
            brushes: self.brushes,
            previous: self.previous@,
            next: self.next@,
            emoji: self.emoji@,
            rows: row_views(self.rows@),
        }
    }
}

/// The strip that shows a frame.
pub open spec fn strip_of(s: RenderSnapshotView, palette: Palette, version: OsVersion) ->
    StripPlanView {
    let brushes = brushes_of(palette);
    StripPlanView {
        dark: palette.dark,
        brushes,
        previous: action_plan(
            s,
            brushes,
            version,
            "\u{EDD9}"@,
            8,
            Thickness { left: 2, top: 2, right: 3, bottom: 2 },
            s.can_page_previous,
            RendererEventAction::NavigatePrevious,
        ),
        next: action_plan(
            s,
            brushes,
            version,
            "\u{EDDA}"@,
            8,
            Thickness { left: 1, top: 2, right: 2, bottom: 2 },
            s.can_page_next,
            RendererEventAction::NavigateNext,
        ),
        emoji: action_plan(
            s,
            brushes,
            version,
            if has_old_icons(version) {
                "\u{E76E}"@
            } else {
                "\u{F6B8}"@
            },
            16,
            Thickness { left: 2, top: 2, right: 2, bottom: 2 },
            true,
            RendererEventAction::OpenEmojiPanel,
        ),
        rows: Seq::new(s.items.len(), |i: int| row_plan(s, brushes, i)),
    }
}

/// The theme of the strip. It keeps its colours until the system's look changes.
pub struct CandidateTheme {
    pub palette: Option<Palette>,
}

impl CandidateTheme {
    /// A theme that has not looked for its colours yet.
    pub fn new() -> (r: Self)
        ensures
            r.palette is None,
    {
        CandidateTheme { palette: None }
    }

    /// Builds the strip that shows a frame; `colors` are the system's, which count
    /// only where the theme has none yet.
    pub fn render(
        &mut self,
        snapshot: &RenderSnapshot,
        colors: Option<(Color, Color, Color)>,
        version: OsVersion,
    ) -> (r: StripPlan)
        ensures
            ({
                let palette = palette_for(old(self).palette, colors);
                &&& final(self).palette == Some(palette)
                &&& r@ == strip_of(snapshot@, palette, version)
            }),
    {
        let palette: Palette = match self.palette {
            Some(palette) => palette,
            None => Palette::system(colors),
        };
        self.palette = Some(palette);
        let colors: Brushes = brushes(palette);
        let previous: ActionPlan = append_action(
            snapshot,
            &colors,
            version,
            "\u{EDD9}",
            8,
            Thickness { left: 2, top: 2, right: 3, bottom: 2 },
            snapshot.can_page_previous,
            RendererEventAction::NavigatePrevious,
        );
        let next: ActionPlan = append_action(
            snapshot,
            &colors,
            version,
            "\u{EDDA}",
            8,
            Thickness { left: 1, top: 2, right: 2, bottom: 2 },
            snapshot.can_page_next,
            RendererEventAction::NavigateNext,
        );
        let emoji: ActionPlan = append_action(
            snapshot,
            &colors,
            version,
            emoji_glyph_for_version(version),
            16,
            Thickness { left: 2, top: 2, right: 2, bottom: 2 },
            true,
            RendererEventAction::OpenEmojiPanel,
        );
        let mut rows: Vec<RowPlan> = Vec::new();
        let mut i: usize = 0;
        while i < snapshot.items.len()
            invariant
                i <= snapshot.items.len(),
                rows.len() == i,
                forall|k: int|
                    0 <= k < i ==> (#[trigger] rows@[k])@ == row_plan(snapshot@, colors, k),
            decreases snapshot.items.len() - i,
        {
            rows.push(candidate_row(snapshot, &colors, i));
            i += 1;
        }
        let r = StripPlan { dark: palette.dark, brushes: colors, previous, next, emoji, rows };
        assert(r@.rows =~= strip_of(snapshot@, palette, version).rows);
        r
    }
}

/// What the pointer does to a row or a button.
#[derive(Clone, Copy, Debug, PartialEq, Eq, Structural)]
pub enum PointerEvent {
    Entered,
    Exited,
    Pressed,
    Released,
}

/// How a row looks.
#[derive(Clone, Copy, Debug, PartialEq, Eq, Structural)]
pub struct RowLook {
    pub background: Color,
    pub text: Color,
    pub ordinal: Color,
    /// Height of the mark before a selected candidate.
    pub mark_height: u32,
}

/// How a row looks at rest.
pub open spec fn row_at_rest(brushes: Brushes, selected: bool) -> RowLook {
    RowLook {
        background: if selected {
            brushes.selection
        } else {
            brushes.transparent
        },
        text: brushes.foreground,
        ordinal: brushes.secondary,
        mark_height: 16,
    }
}

/// How a row looks after the pointer did something. A disabled candidate only shows
/// that the pointer is over it.
pub open spec fn row_after(
    look: RowLook,
    event: PointerEvent,
    brushes: Brushes,
    selected: bool,
    enabled: bool,
) -> RowLook {
    let rest = row_at_rest(brushes, selected);
    match event {
        PointerEvent::Entered => RowLook { background: brushes.hover, ..look },
        PointerEvent::Exited => if enabled {
            rest
        } else {
            RowLook { background: rest.background, ..look }
        },
        PointerEvent::Pressed => if enabled {
            RowLook {
                background: brushes.pressed,
                text: brushes.pressed_text,
                ordinal: brushes.pressed_text,
                mark_height: 10,
            }
        } else {
            look
        },
        PointerEvent::Released => if enabled {
            rest
        } else {
            look
        },
    }
}

/// How a row looks at rest.
pub fn row_rest(brushes: &Brushes, selected: bool) -> (r: RowLook)
    ensures
        r == row_at_rest(*brushes, selected),
{
    RowLook {
        background: if selected {
            brushes.selection
        } else {
            brushes.transparent
        },
        text: brushes.foreground,
        ordinal: brushes.secondary,
        mark_height: 16,
    }
}

/// How a row looks after the pointer did something.
pub fn row_pointer(
    look: RowLook,
    event: PointerEvent,
    brushes: &Brushes,
    selected: bool,
    enabled: bool,
) -> (r: RowLook)
    ensures
        r == row_after(look, event, *brushes, selected, enabled),
{
    let rest: RowLook = row_rest(brushes, selected);
    let mut next: RowLook = look;
    match event {
        PointerEvent::Entered => {
            next.background = brushes.hover;
        },
        PointerEvent::Exited => {
            if enabled {
                next = rest;
            } else {
                next.background = rest.background;
            }
        },
        PointerEvent::Pressed => {
            if enabled {
                next = RowLook {
                    background: brushes.pressed,
                    text: brushes.pressed_text,
                    ordinal: brushes.pressed_text,
                    mark_height: 10,
                };
            }
        },
        PointerEvent::Released => {
            if enabled {
                next = rest;
            }
        },
    }
    next
}

/// How a button looks: its background and its icon.
#[derive(Clone, Copy, Debug, PartialEq, Eq, Structural)]
pub struct ActionLook {
    pub background: Color,
    pub text: Color,
}

/// How a button looks after the pointer did something. A disabled button does not
/// answer.
pub open spec fn action_after(
    look: ActionLook,
    event: PointerEvent,
    brushes: Brushes,
    enabled: bool,
) -> ActionLook {
    if !enabled {
        look
    } else {
        match event {
            PointerEvent::Entered => ActionLook { background: brushes.hover, ..look },
            PointerEvent::Exited | PointerEvent::Released => ActionLook {
                background: brushes.transparent,
                text: brushes.foreground,
            },
            PointerEvent::Pressed => ActionLook {
                background: brushes.pressed,
                text: brushes.pressed_text,
            },
        }
    }
}

/// How a button looks after the pointer did something.
pub fn action_pointer(look: ActionLook, event: PointerEvent, brushes: &Brushes, enabled: bool) -> (r:
    ActionLook)
    ensures
        r == action_after(look, event, *brushes, enabled),
{
    if !enabled {
        return look;
    }
    match event {
        PointerEvent::Entered => ActionLook { background: brushes.hover, text: look.text },
        PointerEvent::Exited | PointerEvent::Released => ActionLook {
            background: brushes.transparent,
            text: brushes.foreground,
        },
        PointerEvent::Pressed => ActionLook {
            background: brushes.pressed,
            text: brushes.pressed_text,
        },
    }
}

/// However the pointer went over an enabled row, it looks as at rest once the
/// pointer has left it.
pub proof fn law_left_row_is_at_rest(look: RowLook, brushes: Brushes, selected: bool)
    ensures
        row_after(look, PointerEvent::Exited, brushes, selected, true) == row_at_rest(
            brushes,
            selected,
        ),
{
}

/// Whatever is tapped reports the frame's own session, token and revision, and a
/// disabled candidate or button reports nothing.
pub proof fn law_taps_keep_the_frame_identity(
    s: RenderSnapshotView,
    palette: Palette,
    version: OsVersion,
    i: int,
)
    requires
        0 <= i < s.items.len(),
    ensures
        ({
            let strip = strip_of(s, palette, version);
            &&& strip.rows[i].tap is Some <==> s.items[i].enabled
            &&& strip.rows[i].tap matches Some(event) ==> event.session_id == s.session_id
                && event.token == s.token && event.revision == s.revision && event.item_index
                == i as u32
            &&& strip.previous.tap is Some <==> s.can_page_previous
            &&& strip.next.tap is Some <==> s.can_page_next
        }),
{
}

} // verus!
