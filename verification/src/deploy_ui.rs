//! The window that shows how a deployment goes.
use crate::deploy_job::{BoundedLog, DeployComplete, Preview};
#[allow(unused_imports)]
use crate::deploy_job::{log_with, total_bytes, DeployCompleteView, LogView, PREVIEW_LIMIT};
#[allow(unused_imports)]
use crate::geometry::half_of;
use crate::geometry::{half, Rect};
use crate::json::texts;
use crate::text::{join2, join3};
use vstd::prelude::*;

pub mod laws;

verus! {

/// Most lines of output that the window shows.
pub const LOG_LINES: usize = 10000;

/// The highest resolution for which the window's lengths fit into 32 bits.
pub const MAX_DPI: i32 = 2982616;

/// How the deployment goes on after its window.
#[derive(Debug, PartialEq, Eq)]
pub enum FallbackStep<G> {
    /// The window is done.
    Done,
    /// There is no window, and no deployment has started: deploy without one. The
    /// text says why.
    Headless(G, String),
    /// There is no window, but a deployment has started: it must not start twice.
    Failed(String),
}

/// How the deployment goes on after its window; `guard` is what starting a
/// deployment takes away.
pub fn with_fallback<G>(ui: Result<(), String>, guard: Option<G>) -> (r: FallbackStep<G>)
    ensures
        match (ui, guard) {
            (Ok(()), _) => r is Done,
            (Err(error), Some(left)) => r matches FallbackStep::Headless(g, text) && g == left
                && text@ == "deployment UI unavailable; running --deploy without UI: "@ + error@,
            (Err(error), None) => r == FallbackStep::<G>::Failed(error),
        },
{
    match ui {
        Ok(()) => FallbackStep::Done,
        Err(error) => match guard {
            Some(guard) => FallbackStep::Headless(
                guard,
                join2("deployment UI unavailable; running --deploy without UI: ", &error),
            ),
            None => FallbackStep::Failed(error),
        },
    }
}

/// What the process ends with: an error, or a deployment that failed.
pub fn run(result: Result<Option<DeployComplete>, String>) -> (r: Result<(), String>)
    ensures
        match result {
            Err(error) => r == Err::<(), String>(error),
            Ok(Some(done)) if !done.success => r == Err::<(), String>(done.message),
            Ok(_) => r is Ok,
        },
{
    match result {
        Err(error) => Err(error),
        Ok(Some(done)) => if done.success {
            Ok(())
        } else {
            Err(done.message)
        },
        Ok(None) => Ok(()),
    }
}

/// The report of a window that could not be shown.
pub fn failure_report(error: &str) -> (r: (String, DeployComplete))
    ensures
        r.0@ == "deployment UI failed: "@ + error@,
        r.1@ == (DeployCompleteView { success: false, exit_code: None, message: error@ }),
{
    (
        join2("deployment UI failed: ", error),
        DeployComplete { success: false, exit_code: None, message: error.to_owned() },
    )
}

/// A length in pixels, for a resolution.
pub open spec fn scaled_length(length: int, dpi: int) -> int {
    length * dpi / 96
}

/// A length in pixels, for a resolution.
pub fn scaled(length: i32, dpi: i32) -> (r: i32)
    requires
        0 <= length <= 720,
        0 <= dpi <= MAX_DPI,
    ensures
        r == scaled_length(length as int, dpi as int),
{
    assert(0 <= length * dpi <= 2147483647) by (nonlinear_arith)
        requires
            0 <= length <= 720,
            0 <= dpi <= 2982616,
    ;
    length * dpi / 96
}

/// The place at which a window of a size stands in the middle of an area.
pub open spec fn centered(work: Rect, width: int, height: int) -> (int, int) {
    (
        work.left + half_of(work.right - work.left - width),
        work.top + half_of(work.bottom - work.top - height),
    )
}

/// The place at which a window of a size stands in the middle of an area.
pub fn centered_position(work: &Rect, width: i32, height: i32) -> (r: (i32, i32))
    requires
        i32::MIN <= centered(*work, width as int, height as int).0 <= i32::MAX,
        i32::MIN <= centered(*work, width as int, height as int).1 <= i32::MAX,
    ensures
        (r.0 as int, r.1 as int) == centered(*work, width as int, height as int),
{
    let x: i64 = work.left as i64 + half(work.right as i64 - work.left as i64 - width as i64);
    let y: i64 = work.top as i64 + half(work.bottom as i64 - work.top as i64 - height as i64);
    (x as i32, y as i32)
}

/// What of a window a point belongs to.
#[derive(Clone, Copy, Debug, PartialEq, Eq, Structural)]
pub enum FrameHit {
    Client,
    Caption,
    Left,
    Right,
    Top,
    Bottom,
    TopLeft,
    TopRight,
    BottomLeft,
    BottomRight,
}

/// What of a window a point belongs to: edges of eight units, of which there are
/// ninety-six to the inch, below them a caption of fifty-six, and the rest. Points
/// outside belong to the rest.
pub open spec fn frame_hit(x: int, y: int, width: int, height: int, dpi: int) -> FrameHit {
    let left = 96 * x < 8 * dpi;
    let right = 96 * x >= 96 * width - 8 * dpi;
    let top = 96 * y < 8 * dpi;
    let bottom = 96 * y >= 96 * height - 8 * dpi;
    if x < 0 || y < 0 || x >= width || y >= height {
        FrameHit::Client
    } else if left && top {
        FrameHit::TopLeft
    } else if right && top {
        FrameHit::TopRight
    } else if left && bottom {
        FrameHit::BottomLeft
    } else if right && bottom {
        FrameHit::BottomRight
    } else if left {
        FrameHit::Left
    } else if right {
        FrameHit::Right
    } else if top {
        FrameHit::Top
    } else if bottom {
        FrameHit::Bottom
    } else if 96 * y < 56 * dpi {
        FrameHit::Caption
    } else {
        FrameHit::Client
    }
}

/// What of a window a point belongs to, in pixels from its corner.
pub fn frame_hit_test(x: i32, y: i32, width: i32, height: i32, dpi: u32) -> (r: FrameHit)
    ensures
        r == frame_hit(x as int, y as int, width as int, height as int, dpi as int),
{
    if x < 0 || y < 0 || x >= width || y >= height {
        return FrameHit::Client;
    }
    let edge: i64 = 8 * (dpi as i64);
    let (px, py): (i64, i64) = (96 * (x as i64), 96 * (y as i64));
    let left: bool = px < edge;
    let right: bool = px >= 96 * (width as i64) - edge;
    let top: bool = py < edge;
    let bottom: bool = py >= 96 * (height as i64) - edge;
    if left && top {
        FrameHit::TopLeft
    } else if right && top {
        FrameHit::TopRight
    } else if left && bottom {
        FrameHit::BottomLeft
    } else if right && bottom {
        FrameHit::BottomRight
    } else if left {
        FrameHit::Left
    } else if right {
        FrameHit::Right
    } else if top {
        FrameHit::Top
    } else if bottom {
        FrameHit::Bottom
    } else if py < 56 * (dpi as i64) {
        FrameHit::Caption
    } else {
        FrameHit::Client
    }
}

/// What of a window a point of the screen belongs to; without the window's place,
/// the rest. A resolution below the usual one counts as the usual one.
pub fn window_hit_test(x: i16, y: i16, window: Option<Rect>, dpi: u32) -> (r: FrameHit)
    requires
        window matches Some(rect) ==> -0x4000_0000 <= rect.left <= rect.right <= 0x3fff_ffff
            && -0x4000_0000 <= rect.top <= rect.bottom <= 0x3fff_ffff,
    ensures
        r == (match window {
            Some(rect) => frame_hit(
                x - rect.left,
                y - rect.top,
                rect.right - rect.left,
                rect.bottom - rect.top,
                if dpi < 96 {
                    96
                } else {
                    dpi as int
                },
            ),
            None => FrameHit::Client,
        }),
{
    match window {
        Some(rect) => frame_hit_test(
            x as i32 - rect.left,
            y as i32 - rect.top,
            rect.right - rect.left,
            rect.bottom - rect.top,
            if dpi < 96 {
                96
            } else {
                dpi
            },
        ),
        None => FrameHit::Client,
    }
}

/// The lines of a text, each with the break that ends it.
pub open spec fn lines_of(text: Seq<char>) -> Seq<Seq<char>>
    decreases text.len(),
{
    if text.len() == 0 {
        Seq::empty()
    } else {
        let before = lines_of(text.drop_last());
        let c = text.last();
        if before.len() == 0 || ends_line(before.last()) {
            before.push(seq![c])
        } else {
            before.drop_last().push(before.last().push(c))
        }
    }
}

/// Whether a line ends with a break.
pub open spec fn ends_line(line: Seq<char>) -> bool {
    line.len() > 0 && line.last() == '\n'
}

/// The lines of a text, each with the break that ends it.
fn split_lines(text: &str) -> (r: Vec<String>)
    ensures
        texts(r@) == lines_of(text@),
{
    let mut lines: Vec<String> = Vec::new();
    let mut open: Option<String> = None;
    let ghost mut seen = Seq::<char>::empty();
    assert(texts(lines@) =~= Seq::<Seq<char>>::empty());
    for c in it: text.chars()
        invariant
            it.seq() == text@,
            seen == text@.take(it.index() as int),
            match open {
                Some(line) => lines_of(seen) == texts(lines@).push(line@) && !ends_line(line@),
                None => lines_of(seen) == texts(lines@) && (lines@.len() > 0 ==> ends_line(
                    texts(lines@).last(),
                )),
            },
    {
        let ghost k = it.index() as int;
        let ghost whole = lines_of(seen);
        let ghost done = texts(lines@);
        proof {
            assert(c == text@[k]);
            assert(text@.take(k + 1) =~= seen.push(c));
            assert(seen.push(c).drop_last() =~= seen);
            assert(done.len() == lines@.len());
        }
        let mut line: String = match open.take() {
            Some(line) => line,
            None => String::new(),
        };
        let ghost before = line@;
        line.push(c);
        proof {
            if before.len() == 0 {
                assert(line@ =~= seq![c]);
            }
            assert(lines_of(seen.push(c)) =~= done.push(line@)) by {
                if whole.len() > done.len() {
                    assert(whole.drop_last() =~= done);
                }
            }
            seen = seen.push(c);
        }
        if c == '\n' {
            lines.push(line);
            assert(texts(lines@) =~= done.push(line@));
        } else {
            open = Some(line);
        }
    }
    assert(text@.take(text@.len() as int) =~= text@);
    if let Some(line) = open {
        let ghost done = texts(lines@);
        lines.push(line);
        assert(texts(lines@) =~= done.push(line@));
    }
    lines
}

/// Output with more lines, one after another.
pub open spec fn with_lines(log: LogView, lines: Seq<Seq<char>>) -> LogView
    decreases lines.len(),
{
    if lines.len() == 0 {
        log
    } else {
        log_with(with_lines(log, lines.drop_last()), lines.last(), LOG_LINES as nat)
    }
}

/// Output with more text.
pub open spec fn appended(log: LogView, text: Seq<char>) -> LogView {
    with_lines(log, lines_of(text))
}

/// Texts one after another.
pub open spec fn concat(chunks: Seq<Seq<char>>) -> Seq<char>
    decreases chunks.len(),
{
    if chunks.len() == 0 {
        Seq::empty()
    } else {
        concat(chunks.drop_last()) + chunks.last()
    }
}

/// What the window shows of output: where some of it was lost, it says so.
pub open spec fn shown_text(log: LogView) -> Seq<char> {
    if log.omitted {
        "[较早日志已省略；完整日志已保存]\n"@ + concat(log.chunks)
    } else {
        concat(log.chunks)
    }
}

/// The output that the window shows.
pub struct LogBuffer {
    pub log: BoundedLog,
}

impl LogBuffer {
    /// No output.
    pub fn new() -> (r: Self)
        ensures
            r.log.wf(),
            r.log@ == (LogView { chunks: Seq::empty(), omitted: false }),
    {
        LogBuffer { log: BoundedLog::new() }
    }

    /// Adds output, line by line: of a line that is too long the end is kept, and
    /// the oldest lines make room.
    pub fn append(&mut self, text: &str)
        requires
            old(self).log.wf(),
        ensures
            final(self).log.wf(),
            final(self).log@ == appended(old(self).log@, text@),
    {
        let ghost before = self.log@;
        let lines: Vec<String> = split_lines(text);
        let ghost all = texts(lines@);
        let mut i: usize = 0;
        assert(all.take(0) =~= Seq::<Seq<char>>::empty());
        while i < lines.len()
            invariant
                i <= lines.len(),
                all == texts(lines@),
                self.log.wf(),
                self.log@ == with_lines(before, all.take(i as int)),
            decreases lines.len() - i,
        {
            assert(all.take(i + 1).drop_last() =~= all.take(i as int));
            assert(all.take(i + 1).last() == lines@[i as int]@);
            self.log.push(&lines[i], LOG_LINES);
            i += 1;
        }
        assert(all.take(all.len() as int) =~= all);
    }

    /// What the window shows.
    pub fn text(&self) -> (r: String)
        ensures
            r@ == shown_text(self.log@),
    {
        let mut text: String = if self.log.omitted {
            "[较早日志已省略；完整日志已保存]\n".to_owned()
        } else {
            String::new()
        };
        let ghost head = text@;
        let ghost chunks = self.log@.chunks;
        let mut i: usize = 0;
        assert(chunks.take(0) =~= Seq::<Seq<char>>::empty());
        assert(head + concat(chunks.take(0)) =~= head);
        while i < self.log.chunks.len()
            invariant
                i <= self.log.chunks@.len(),
                chunks == texts(self.log.chunks@),
                text@ == head + concat(chunks.take(i as int)),
            decreases self.log.chunks@.len() - i,
        {
            assert(chunks.take(i + 1).drop_last() =~= chunks.take(i as int));
            assert(chunks.take(i + 1).last() == self.log.chunks@[i as int]@);
            let ghost before = concat(chunks.take(i as int));
            text.append(self.log.chunks[i].as_str());
            assert(text@ =~= head + (before + self.log.chunks@[i as int]@));
            i += 1;
        }
        assert(chunks.take(chunks.len() as int) =~= chunks);
        assert(!self.log.omitted ==> head + concat(chunks) =~= concat(chunks));
        text
    }
}

/// The window while the deployment runs.
pub struct DeployWindow {
    pub text: LogBuffer,
    /// Whether the output has grown since the window last scrolled to its end.
    pub scroll_pending: bool,
    /// Whether the deployment has ended; only then the window may close.
    pub finished: bool,
}

/// What the window changes.
#[derive(Debug, PartialEq, Eq)]
pub struct WindowUpdate {
    /// Scroll to the end of the output.
    pub scroll: bool,
    /// Show how the deployment ended, and let the user close the window.
    pub status: Option<String>,
    /// Show this output.
    pub log: Option<String>,
}

/// Output with pieces, one after another.
pub open spec fn with_pieces(log: LogView, pieces: Seq<Seq<char>>) -> LogView
    decreases pieces.len(),
{
    if pieces.len() == 0 {
        log
    } else {
        appended(with_pieces(log, pieces.drop_last()), pieces.last())
    }
}

/// The output after an update.
pub open spec fn updated_log(log: LogView, news: LogView, message: Option<Seq<char>>) -> LogView {
    let pieces = with_pieces(
        LogView { omitted: log.omitted || news.omitted, ..log },
        news.chunks,
    );
    match message {
        Some(text) => appended(pieces, "\n"@ + text + "\n"@),
        None => pieces,
    }
}

/// The message of how a deployment ended.
pub open spec fn end_message(complete: Option<DeployComplete>) -> Option<Seq<char>> {
    match complete {
        Some(done) => Some(done.message@),
        None => None,
    }
}

impl DeployWindow {
    /// A window that shows nothing yet.
    pub fn new() -> (r: Self)
        ensures
            r.text.log.wf(),
            r.text.log@ == (LogView { chunks: Seq::empty(), omitted: false }),
            !r.scroll_pending,
            !r.finished,
    {
        DeployWindow { text: LogBuffer::new(), scroll_pending: false, finished: false }
    }

    /// Takes what waited for the window. It scrolls one update after its output has
    /// grown, when the output has its new size.
    pub fn update(&mut self, preview: Preview) -> (r: WindowUpdate)
        requires
            old(self).text.log.wf(),
        ensures
            final(self).text.log.wf(),
            final(self).text.log@ == updated_log(
                old(self).text.log@,
                preview.log@,
                end_message(preview.complete),
            ),
            final(self).finished == (old(self).finished || preview.complete is Some),
            r.scroll == old(self).scroll_pending,
            final(self).scroll_pending == (preview.log@.chunks.len() > 0
                || preview.complete is Some),
            match r.status {
                Some(text) => end_message(preview.complete) == Some(text@),
                None => preview.complete is None,
            },
            match r.log {
                Some(text) => final(self).scroll_pending && text@ == shown_text(
                    final(self).text.log@,
                ),
                None => !final(self).scroll_pending,
            },
    {
        let scroll: bool = self.scroll_pending;
        let ghost news = preview.log@;
        if preview.log.omitted {
            self.text.log.omitted = true;
        }
        let ghost start = self.text.log@;
        let mut dirty: bool = preview.log.chunks.len() > 0;
        let mut i: usize = 0;
        assert(news.chunks.take(0) =~= Seq::<Seq<char>>::empty());
        while i < preview.log.chunks.len()
            invariant
                i <= preview.log.chunks@.len(),
                news.chunks == texts(preview.log.chunks@),
                self.text.log.wf(),
                self.text.log@ == with_pieces(start, news.chunks.take(i as int)),
                self.finished == old(self).finished,
            decreases preview.log.chunks@.len() - i,
        {
            assert(news.chunks.take(i + 1).drop_last() =~= news.chunks.take(i as int));
            assert(news.chunks.take(i + 1).last() == preview.log.chunks@[i as int]@);
            self.text.append(preview.log.chunks[i].as_str());
            i += 1;
        }
        assert(news.chunks.take(news.chunks.len() as int) =~= news.chunks);
        let mut status: Option<String> = None;
        if let Some(done) = preview.complete {
            let line: String = join3("\n", &done.message, "\n");
            self.text.append(&line);
            status = Some(done.message);
            dirty = true;
            self.finished = true;
        }
        self.scroll_pending = dirty;
        let log: Option<String> = if dirty {
            Some(self.text.text())
        } else {
            None
        };
        WindowUpdate { scroll, status, log }
    }
}

/// The messages that the window handles itself.
#[derive(Clone, Copy, Debug, PartialEq, Eq, Structural)]
pub enum WindowMessage {
    /// The frame's size is asked for, with the area to change.
    FrameSize { with_area: bool },
    HitTest,
    /// A double click; `caption` says whether on the caption.
    FrameDoubleClick { caption: bool },
    Close,
    /// A command of the system menu, with its number.
    SystemCommand(usize),
    Resized,
    /// The resolution has changed, with the place that suits it.
    ResolutionChanged(Rect),
    /// The smallest size is asked for.
    SizeLimits,
    Other,
}

/// What the window does with a message.
#[derive(Clone, Copy, Debug, PartialEq, Eq, Structural)]
pub enum WindowAction {
    /// Nothing, and the system does nothing either.
    Handled,
    /// Tell what of the window the point belongs to.
    HitTest,
    Quit,
    /// Move to a place, and lay out the content.
    MoveAndLayOut(Rect),
    LayOut,
    /// Tell the smallest size.
    Limit { width: i32, height: i32 },
    /// Leave it to the system.
    Default,
}

/// The number of the command that closes a window.
pub const SC_CLOSE: usize = 0xf060;

/// Whether a command of the system menu closes the window: the last four bits of
/// its number do not count.
pub open spec fn is_close_command(command: usize) -> bool {
    command & 0xfff0usize == SC_CLOSE
}

/// What the window does with a message: it does not close while the deployment
/// runs, has no frame of its own, and does not become smaller than its content.
pub open spec fn window_action(message: WindowMessage, finished: bool, dpi: int) -> WindowAction {
    match message {
        WindowMessage::FrameSize { with_area } => if with_area {
            WindowAction::Handled
        } else {
            WindowAction::Default
        },
        WindowMessage::HitTest => WindowAction::HitTest,
        WindowMessage::FrameDoubleClick { caption } => if caption {
            WindowAction::Handled
        } else {
            WindowAction::Default
        },
        WindowMessage::Close => if finished {
            WindowAction::Quit
        } else {
            WindowAction::Handled
        },
        WindowMessage::SystemCommand(command) => if !is_close_command(command) {
            WindowAction::Default
        } else if finished {
            WindowAction::Quit
        } else {
            WindowAction::Handled
        },
        WindowMessage::Resized => WindowAction::LayOut,
        WindowMessage::ResolutionChanged(place) => WindowAction::MoveAndLayOut(place),
        WindowMessage::SizeLimits => WindowAction::Limit {
            width: scaled_length(560, dpi) as i32,
            height: scaled_length(360, dpi) as i32,
        },
        WindowMessage::Other => WindowAction::Default,
    }
}

/// What the window does with a message.
pub fn window_proc(message: WindowMessage, finished: bool, dpi: i32) -> (r: WindowAction)
    requires
        0 <= dpi <= MAX_DPI,
    ensures
        r == window_action(message, finished, dpi as int),
{
    match message {
        WindowMessage::FrameSize { with_area } => if with_area {
            WindowAction::Handled
        } else {
            WindowAction::Default
        },
        WindowMessage::HitTest => WindowAction::HitTest,
        WindowMessage::FrameDoubleClick { caption } => if caption {
            WindowAction::Handled
        } else {
            WindowAction::Default
        },
        WindowMessage::Close => if finished {
            WindowAction::Quit
        } else {
            WindowAction::Handled
        },
        WindowMessage::SystemCommand(command) => if command & 0xfff0usize != SC_CLOSE {
            WindowAction::Default
        } else if finished {
            WindowAction::Quit
        } else {
            WindowAction::Handled
        },
        WindowMessage::Resized => WindowAction::LayOut,
        WindowMessage::ResolutionChanged(place) => WindowAction::MoveAndLayOut(place),
        WindowMessage::SizeLimits => WindowAction::Limit {
            width: scaled(560, dpi),
            height: scaled(360, dpi),
        },
        WindowMessage::Other => WindowAction::Default,
    }
}

/// How the message loop treats a message.
#[derive(Clone, Copy, Debug, PartialEq, Eq, Structural)]
pub struct LoopStep {
    /// Look for what waits for the window first.
    pub update: bool,
    /// Offer the message to the controls before the window.
    pub offer_controls: bool,
}

/// How the message loop treats a message: the timer and the notice of the
/// deployment update the window, and what goes to the drag layer is not offered to
/// the controls.
pub fn loop_step(to_window: bool, timer: bool, notice: bool, to_drag_layer: bool) -> (r: LoopStep)
    ensures
        r.update == (to_window && (timer || notice)),
        r.offer_controls == !to_drag_layer,
{
    LoopStep { update: to_window && (timer || notice), offer_controls: !to_drag_layer }
}

/// The window's first place and size.
pub fn startup_place(work: &Rect, dpi: i32) -> (r: (i32, i32, i32, i32))
    requires
        96 <= dpi <= MAX_DPI,
        i32::MIN <= centered(
            *work,
            scaled_length(720, dpi as int),
            scaled_length(480, dpi as int),
        ).0 <= i32::MAX,
        i32::MIN <= centered(
            *work,
            scaled_length(720, dpi as int),
            scaled_length(480, dpi as int),
        ).1 <= i32::MAX,
    ensures
        r.2 == scaled_length(720, dpi as int),
        r.3 == scaled_length(480, dpi as int),
        (r.0 as int, r.1 as int) == centered(*work, r.2 as int, r.3 as int),
{
    let width: i32 = scaled(720, dpi);
    let height: i32 = scaled(480, dpi);
    let (x, y): (i32, i32) = centered_position(work, width, height);
    (x, y, width, height)
}

/// The size at which the content was last laid out: width, height, resolution.
#[derive(Clone, Copy, Debug, PartialEq, Eq)]
pub struct Layout {
    pub size: (i32, i32, u32),
}

impl Layout {
    /// Not laid out yet.
    pub fn new() -> (r: Self)
        ensures
            r.size == (-1i32, -1i32, 0u32),
    {
        Layout { size: (-1, -1, 0) }
    }

    /// Takes the window's size. The result is the size at which the content has to
    /// be laid out; none where it already is.
    pub fn resize(&mut self, width: i32, height: i32, dpi: u32) -> (r: Option<(i32, i32, u32)>)
        ensures
            ({
                let size = (
                    width,
                    height,
                    if dpi < 96 {
                        96u32
                    } else {
                        dpi
                    },
                );
                &&& final(self).size == size
                &&& r == (if old(self).size == size {
                    None
                } else {
                    Some(size)
                })
            }),
    {
        let size: (i32, i32, u32) = (
            width,
            height,
            if dpi < 96 {
                96
            } else {
                dpi
            },
        );
        if self.size.0 == size.0 && self.size.1 == size.1 && self.size.2 == size.2 {
            return None;
        }
        self.size = size;
        Some(size)
    }
}

/// The window's look.
#[derive(Clone, Copy, Debug, PartialEq, Eq)]
pub struct ThemePlan {
    pub dark: bool,
    /// Red, green and blue of the background, where the window paints one.
    pub tint: Option<(u8, u8, u8)>,
}

/// Whether the background shows through the window: the system offers it, and both
/// the frame and the content let it.
pub fn uses_mica(backdrop: bool, transparent: bool, extended: bool) -> (r: bool)
    ensures
        r == (backdrop && transparent && extended),
{
    backdrop && transparent && extended
}

/// Follows the system's colours: the result is the new look, and none where it
/// stays. A background that cannot be read counts as dark; where the background
/// shows through, none is painted.
pub fn apply_theme(background_red: Option<u8>, mica: bool, previous: &mut Option<bool>) -> (r:
    Option<ThemePlan>)
    ensures
        ({
            let dark = background_red matches Some(red) ==> red < 128;
            &&& *final(previous) == Some(dark)
            &&& r == (if *old(previous) == Some(dark) {
                None
            } else {
                Some(
                    ThemePlan {
                        dark,
                        tint: if mica {
                            None
                        } else if dark {
                            Some((32u8, 32u8, 32u8))
                        } else {
                            Some((243u8, 243u8, 243u8))
                        },
                    },
                )
            })
        }),
{
    let dark: bool = match background_red {
        Some(red) => red < 128,
        None => true,
    };
    if *previous == Some(dark) {
        return None;
    }
    *previous = Some(dark);
    let tint: Option<(u8, u8, u8)> = if mica {
        None
    } else if dark {
        Some((32, 32, 32))
    } else {
        Some((243, 243, 243))
    };
    Some(ThemePlan { dark, tint })
}

/// Whatever is logged, the output that is shown stays within its bounds.
pub proof fn law_shown_output_is_bounded(log: LogView, text: Seq<char>)
    requires
        total_bytes(log.chunks) <= PREVIEW_LIMIT,
        log.chunks.len() <= LOG_LINES,
    ensures
        total_bytes(appended(log, text).chunks) <= PREVIEW_LIMIT,
        appended(log, text).chunks.len() <= LOG_LINES,
{
    lemma_lines_bounded(log, lines_of(text));
}

/// Line by line, the output stays within its bounds.
proof fn lemma_lines_bounded(log: LogView, lines: Seq<Seq<char>>)
    requires
        total_bytes(log.chunks) <= PREVIEW_LIMIT,
        log.chunks.len() <= LOG_LINES,
    ensures
        total_bytes(with_lines(log, lines).chunks) <= PREVIEW_LIMIT,
        with_lines(log, lines).chunks.len() <= LOG_LINES,
    decreases lines.len(),
{
    if lines.len() > 0 {
        lemma_lines_bounded(log, lines.drop_last());
        crate::deploy_job::law_preview_is_bounded(
            with_lines(log, lines.drop_last()).chunks,
            lines.last(),
            LOG_LINES as nat,
        );
    }
}

/// The lines of a text are the whole text: nothing is lost by splitting it.
pub proof fn law_lines_make_up_the_text(text: Seq<char>)
    ensures
        concat(lines_of(text)) == text,
    decreases text.len(),
{
    if text.len() > 0 {
        law_lines_make_up_the_text(text.drop_last());
        let before = lines_of(text.drop_last());
        let now = lines_of(text);
        let c = text.last();
        if before.len() == 0 || ends_line(before.last()) {
            assert(now.drop_last() =~= before);
        } else {
            assert(now.drop_last() =~= before.drop_last());
            assert(now.last() == before.last().push(c));
        }
        assert(text =~= text.drop_last().push(c));
        assert(concat(now) =~= text);
    } else {
        assert(text =~= Seq::<char>::empty());
    }
}

/// While the deployment runs, nothing closes the window.
pub proof fn law_running_deployment_keeps_its_window(message: WindowMessage, dpi: int)
    ensures
        window_action(message, false, dpi) != WindowAction::Quit,
{
}

} // verus!
