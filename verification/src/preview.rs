//! The stand-alone preview: how it is asked for, and what it shows.
use crate::message::{RenderItem, RenderRect, RenderSnapshot};
#[allow(unused_imports)]
use crate::message::{RenderItemView, RenderSnapshotView};
use crate::preview_window::{Controller, ControllerAction};
use crate::text::same_text;
use crate::theme_api::UiMode;
use vstd::prelude::*;

verus! {

/// The connection that the preview's frame counts as.
pub const PREVIEW_OWNER: u64 = 1;

/// How the renderer runs for its arguments: none for the live strip, and only
/// `--preview` for the preview. Everything else is answered with the usage.
pub fn parse_args(args: &Vec<String>) -> (r: Result<UiMode, String>)
    ensures
        match r {
            Ok(UiMode::Live) => args.len() == 0,
            Ok(UiMode::Preview) => args.len() == 1 && args[0]@ == "--preview"@,
            Err(error) => args.len() > 0 && !(args.len() == 1 && args[0]@ == "--preview"@)
                && error@ == "usage: weasel-renderer.exe [--preview]"@,
        },
{
    if args.len() == 0 {
        Ok(UiMode::Live)
    } else if args.len() == 1 && same_text(args[0].as_str(), "--preview") {
        Ok(UiMode::Preview)
    } else {
        Err("usage: weasel-renderer.exe [--preview]".to_owned())
    }
}

/// A candidate of the preview.
pub open spec fn sample(primary: Seq<char>, secondary: Seq<char>) -> RenderItemView {
    RenderItemView {
        primary_text: primary,
        secondary_text: secondary,
        enabled: true,
        kind: "candidate"@,
    }
}

/// The preview's frame: a page in the middle of three, so that a theme shows its
/// buttons, and candidates with and without a comment. Its anchor only has to be
/// valid.
pub open spec fn sample_frame() -> RenderSnapshotView {
    RenderSnapshotView {
        sequence: 1,
        session_id: 1,
        revision: 1,
        active: true,
        visible: true,
        ascii_mode: Some(false),
        preedit: None,
        anchor: Some(RenderRect { left: 0, top: 0, right: 1, bottom: 1, valid: true }),
        items: seq![
            sample("你好"@, "nihao"@),
            sample("小狼毫"@, "xiaolanghao"@),
            sample("Rime"@, ""@),
            sample("中州韻"@, ""@),
        ],
        selected_index: 0,
        page_start: 10,
        total_item_count: Some(30),
        can_page_previous: true,
        can_page_next: true,
        token: None,
        mode_indicator: None,
    }
}

/// A candidate of the preview.
fn sample_item(primary: &str, secondary: &str) -> (r: RenderItem)
    ensures
        r@ == sample(primary@, secondary@),
{
    RenderItem {
        primary_text: primary.to_owned(),
        secondary_text: secondary.to_owned(),
        enabled: true,
        kind: "candidate".to_owned(),
    }
}

/// The preview's frame.
pub fn synthetic_snapshot() -> (r: RenderSnapshot)
    ensures
        r@ == sample_frame(),
{
    let mut items: Vec<RenderItem> = Vec::new();
    items.push(sample_item("你好", "nihao"));
    items.push(sample_item("小狼毫", "xiaolanghao"));
    items.push(sample_item("Rime", ""));
    items.push(sample_item("中州韻", ""));
    let r = RenderSnapshot {
        sequence: 1,
        session_id: 1,
        revision: 1,
        active: true,
        visible: true,
        ascii_mode: Some(false),
        preedit: None,
        anchor: Some(RenderRect { left: 0, top: 0, right: 1, bottom: 1, valid: true }),
        items,
        selected_index: 0,
        page_start: 10,
        total_item_count: Some(30),
        can_page_previous: true,
        can_page_next: true,
        token: None,
        mode_indicator: None,
    };
    assert(r@.items =~= sample_frame().items);
    r
}

/// The preview's frame is on the screen, its selection lies on its page, and its
/// page within what it counts.
pub proof fn law_sample_frame_is_visible()
    ensures
        crate::presentation::frame_visible(sample_frame()),
        crate::state::indices_allowed(sample_frame()),
        crate::state::anchor_allowed(sample_frame().anchor->0),
{
}

/// Starts the preview: the state of its window, and what the window does first.
pub fn run(_mode: UiMode) -> (r: (Controller, Vec<ControllerAction>))
    ensures
        r.0 == (Controller { busy: true, closing: false }),
        crate::preview_window::action_views(r.1@) == crate::preview_window::refresh_actions(),
{
    crate::preview_window::run()
}

} // verus!
