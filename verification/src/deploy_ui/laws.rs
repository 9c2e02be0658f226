//! What the deployment's window shows, where it stands, and how it answers.
#[allow(unused_imports)]
use super::{
    appended, centered, concat, ends_line, frame_hit, is_close_command, lines_of, scaled_length,
    shown_text, updated_log, window_action, with_lines, with_pieces, FrameHit, WindowAction,
    WindowMessage,
};
#[allow(unused_imports)]
use crate::deploy_job::{log_with, total_bytes, LogView};
#[allow(unused_imports)]
use crate::geometry::{half_of, Rect};
#[allow(unused_imports)]
use crate::text::byte_len;
use vstd::prelude::*;

verus! {

/// A window in the middle of an area leaves as much room on either side, give or take a
/// pixel.
pub proof fn law_room_on_either_side(work: Rect, width: int, height: int)
    ensures
        ({
            let (x, y) = centered(work, width, height);
            &&& -1 <= (x - work.left) - (work.right - (x + width)) <= 1
            &&& -1 <= (y - work.top) - (work.bottom - (y + height)) <= 1
        }),
{
}

/// A window that fits an area stays in it, in its middle.
pub proof fn law_centred_window_stays_in_the_area(work: Rect, width: int, height: int)
    requires
        0 <= width <= work.right - work.left,
        0 <= height <= work.bottom - work.top,
    ensures
        work.left <= centered(work, width, height).0,
        centered(work, width, height).0 + width <= work.right,
        work.top <= centered(work, width, height).1,
        centered(work, width, height).1 + height <= work.bottom,
{
}

/// A length is scaled with the resolution: it is itself at the usual one, and twice itself at
/// twice that.
pub proof fn law_lengths_are_scaled(length: int)
    ensures
        scaled_length(length, 96) == length,
        scaled_length(length, 192) == 2 * length,
{
}

/// The eight edges of a window that is large enough lie where they are named after, the
/// caption below the upper one, and the rest below the caption.
pub proof fn law_edges_lie_at_their_sides(x: int, y: int, width: int, height: int)
    requires
        0 <= x < width,
        0 <= y < height,
        width >= 16,
        height >= 64,
    ensures
        ({
            let hit = frame_hit(x, y, width, height, 96);
            &&& hit == FrameHit::TopLeft <==> x < 8 && y < 8
            &&& hit == FrameHit::TopRight <==> x >= width - 8 && y < 8
            &&& hit == FrameHit::BottomLeft <==> x < 8 && y >= height - 8
            &&& hit == FrameHit::BottomRight <==> x >= width - 8 && y >= height - 8
            &&& hit == FrameHit::Left <==> x < 8 && 8 <= y < height - 8
            &&& hit == FrameHit::Right <==> x >= width - 8 && 8 <= y < height - 8
            &&& hit == FrameHit::Top <==> y < 8 && 8 <= x < width - 8
            &&& hit == FrameHit::Bottom <==> y >= height - 8 && 8 <= x < width - 8
            &&& hit == FrameHit::Caption <==> 8 <= x < width - 8 && 8 <= y < 56 && y < height - 8
            &&& hit == FrameHit::Client <==> 8 <= x < width - 8 && 56 <= y < height - 8
        }),
{
}

/// Outside of the window there is neither edge nor caption, at any resolution; and what is
/// at a place of a window is at the same place of one twice as fine and large.
pub proof fn law_frame_grows_with_the_resolution(
    x: int,
    y: int,
    width: int,
    height: int,
    dpi: int,
)
    ensures
        x < 0 || y < 0 || x >= width || y >= height ==> frame_hit(x, y, width, height, dpi)
            == FrameHit::Client,
        frame_hit(2 * x, 2 * y, 2 * width, 2 * height, 2 * dpi) == frame_hit(
            x,
            y,
            width,
            height,
            dpi,
        ),
{
}

/// Every line but the last ends with a break, no line has one elsewhere, and none is empty.
pub proof fn law_breaks_end_lines(text: Seq<char>)
    ensures
        forall|i: int|
            0 <= i < lines_of(text).len() - 1 ==> (#[trigger] lines_of(text)[i]).len() > 0
                && lines_of(text)[i].last() == '\n',
        forall|i: int, k: int|
            0 <= i < lines_of(text).len() && 0 <= k < lines_of(text)[i].len() - 1
                ==> #[trigger] lines_of(text)[i][k] != '\n',
        text.len() > 0 ==> lines_of(text).len() > 0 && lines_of(text).last().len() > 0
            && lines_of(text).last().last() == text.last(),
    decreases text.len(),
{
    if text.len() > 0 {
        law_breaks_end_lines(text.drop_last());
        let before = lines_of(text.drop_last());
        let now = lines_of(text);
        let c = text.last();
        if before.len() == 0 || ends_line(before.last()) {
            assert(now == before.push(seq![c]));
            assert forall|i: int| 0 <= i < now.len() - 1 implies (#[trigger] now[i]).len() > 0
                && now[i].last() == '\n' by {
                assert(now[i] == before[i]);
            }
            assert forall|i: int, k: int|
                0 <= i < now.len() && 0 <= k < now[i].len() - 1 implies #[trigger] now[i][k]
                != '\n' by {
                if i < before.len() {
                    assert(now[i] == before[i]);
                    assert(before[i][k] != '\n');
                }
            }
        } else {
            let n = before.len() - 1;
            assert(now == before.drop_last().push(before.last().push(c)));
            assert forall|i: int| 0 <= i < now.len() - 1 implies (#[trigger] now[i]).len() > 0
                && now[i].last() == '\n' by {
                assert(now[i] == before[i]);
            }
            assert forall|i: int, k: int|
                0 <= i < now.len() && 0 <= k < now[i].len() - 1 implies #[trigger] now[i][k]
                != '\n' by {
                if i < n {
                    assert(now[i] == before[i]);
                    assert(before[i][k] != '\n');
                } else {
                    assert(now[i][k] == before.last()[k]);
                    if k < before.last().len() - 1 {
                        assert(before[n][k] != '\n');
                    }
                }
            }
        }
    }
}

/// Output that fits is kept line by line, behind what there was.
proof fn lemma_lines_fit(log: LogView, lines: Seq<Seq<char>>)
    requires
        total_bytes(log.chunks + lines) <= 262144,
        log.chunks.len() + lines.len() <= 10000,
    ensures
        with_lines(log, lines) == (LogView { chunks: log.chunks + lines, omitted: log.omitted }),
    decreases lines.len(),
{
    if lines.len() == 0 {
        assert(log.chunks + lines =~= log.chunks);
    } else {
        let rest = lines.drop_last();
        assert(log.chunks + lines =~= (log.chunks + rest) + seq![lines.last()]);
        crate::deploy_job::laws::law_lengths_add_up(log.chunks + rest, seq![lines.last()]);
        crate::deploy_job::laws::law_lengths_add_up(seq![lines.last()], Seq::empty());
        lemma_lines_fit(log, rest);
        let before = with_lines(log, rest);
        crate::deploy_job::laws::law_text_is_added_behind_the_others(before, lines.last(), 10000);
        assert(before.chunks.push(lines.last()) =~= log.chunks + lines);
    }
}

/// Texts one after another are what they are in two parts.
proof fn lemma_concat(a: Seq<Seq<char>>, b: Seq<Seq<char>>)
    ensures
        concat(a + b) == concat(a) + concat(b),
    decreases b.len(),
{
    if b.len() == 0 {
        assert(a + b =~= a);
        assert(concat(a) + concat(b) =~= concat(a));
    } else {
        lemma_concat(a, b.drop_last());
        assert((a + b).drop_last() =~= a + b.drop_last());
        assert(concat(a + b) =~= concat(a) + concat(b));
    }
}

/// Output that fits is shown whole, right after what was shown.
pub proof fn law_short_output_is_shown_whole(log: LogView, text: Seq<char>)
    requires
        total_bytes(log.chunks + lines_of(text)) <= 262144,
        log.chunks.len() + lines_of(text).len() <= 10000,
    ensures
        shown_text(appended(log, text)) == shown_text(log) + text,
{
    let lines = lines_of(text);
    lemma_lines_fit(log, lines);
    lemma_concat(log.chunks, lines);
    super::law_lines_make_up_the_text(text);
    assert(shown_text(appended(log, text)) =~= shown_text(log) + text);
}

/// Where output is missing, the window says so before all else.
pub proof fn law_missing_output_is_said(log: LogView)
    ensures
        !log.omitted ==> shown_text(log) == concat(log.chunks),
        log.omitted ==> shown_text(log) == "[较早日志已省略；完整日志已保存]\n"@ + concat(
            log.chunks,
        ),
{
}

/// The end of a deployment is shown behind its output, on a line of its own; and what was
/// missing stays missing.
pub proof fn law_end_is_shown_behind_the_output(
    log: LogView,
    news: LogView,
    message: Seq<char>,
)
    ensures
        updated_log(log, news, Some(message)) == appended(
            updated_log(log, news, None),
            "\n"@ + message + "\n"@,
        ),
        news.chunks.len() == 0 ==> updated_log(log, news, None) == (LogView {
            omitted: log.omitted || news.omitted,
            ..log
        }),
        news.chunks.len() == 1 ==> updated_log(log, news, None) == appended(
            LogView { omitted: log.omitted || news.omitted, ..log },
            news.chunks[0],
        ),
{
    if news.chunks.len() == 1 {
        reveal_with_fuel(with_pieces, 2);
        assert(news.chunks.drop_last() =~= Seq::<Seq<char>>::empty());
    }
}

/// Once the deployment has ended, the window closes by its button, by the keyboard and by
/// its menu; at no time does it become smaller than its content.
pub proof fn law_finished_window_closes(command: usize, dpi: int, finished: bool)
    requires
        96 <= dpi <= 0x10_0000,
    ensures
        window_action(WindowMessage::Close, true, dpi) == WindowAction::Quit,
        0xf060 <= command < 0xf070 ==> window_action(
            WindowMessage::SystemCommand(command),
            true,
            dpi,
        ) == WindowAction::Quit,
        0xf060 <= command < 0xf070 ==> window_action(
            WindowMessage::SystemCommand(command),
            false,
            dpi,
        ) == WindowAction::Handled,
        command < 0xf060 || 0xf070 <= command < 0x10000 ==> window_action(
            WindowMessage::SystemCommand(command),
            finished,
            dpi,
        ) == WindowAction::Default,
        ({
            let limit = window_action(WindowMessage::SizeLimits, finished, dpi);
            &&& limit is Limit
            &&& 96 * limit->width <= 560 * dpi < 96 * (limit->width + 1)
            &&& 96 * limit->height <= 360 * dpi < 96 * (limit->height + 1)
        }),
{
    assert(0xf060 <= command < 0xf070 ==> command & 0xfff0usize == 0xf060usize) by (bit_vector);
    assert((command < 0xf060 || 0xf070 <= command < 0x10000) ==> command & 0xfff0usize
        != 0xf060usize) by (bit_vector);
}

/// A new resolution moves the window to the place that suits it, a new size lays its content
/// out, and points are answered for by the window itself.
pub proof fn law_window_follows_the_system(place: Rect, finished: bool, dpi: int)
    ensures
        window_action(WindowMessage::ResolutionChanged(place), finished, dpi)
            == WindowAction::MoveAndLayOut(place),
        window_action(WindowMessage::Resized, finished, dpi) == WindowAction::LayOut,
        window_action(WindowMessage::HitTest, finished, dpi) == WindowAction::HitTest,
        window_action(WindowMessage::Other, finished, dpi) == WindowAction::Default,
        window_action(WindowMessage::FrameSize { with_area: true }, finished, dpi)
            == WindowAction::Handled,
        window_action(WindowMessage::FrameSize { with_area: false }, finished, dpi)
            == WindowAction::Default,
        window_action(WindowMessage::FrameDoubleClick { caption: true }, finished, dpi)
            == WindowAction::Handled,
{
}

} // verus!
