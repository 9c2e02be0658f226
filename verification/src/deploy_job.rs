//! Running a deployment: its output is decoded as it comes, and a bounded part of it
//! waits for the window.
use crate::json::texts;
use crate::text::{join2, keep_end_within};
#[allow(unused_imports)]
use crate::text::{byte_len, lemma_encode_concat, suffix_within};
use std::collections::VecDeque;
use vstd::prelude::*;
use vstd::utf8::*;

pub mod laws;

verus! {

/// Most bytes of output that wait for the window, or that it shows.
pub const PREVIEW_LIMIT: usize = 262144;

/// Most pieces of output that wait for the window.
pub const PREVIEW_CHUNKS: usize = 1000;

/// How a deployment ended.
#[derive(Debug, PartialEq, Eq)]
pub struct DeployComplete {
    pub success: bool,
    pub exit_code: Option<i32>,
    pub message: String,
}

#[verifier::ext_equal]
pub ghost struct DeployCompleteView {
    pub success: bool,
    pub exit_code: Option<i32>,
    pub message: Seq<char>,
}

impl View for DeployComplete {
    type V = DeployCompleteView;

    open spec fn view(&self) -> DeployCompleteView {
        DeployCompleteView {
            success: self.success,
            exit_code: self.exit_code,
            message: self.message@,
        }
    }
}

impl Clone for DeployComplete {
    fn clone(&self) -> (r: Self)
        ensures
            r@ == self@,
    {
        DeployComplete {
            success: self.success,
            exit_code: self.exit_code,
            message: self.message.clone(),
        }
    }
}

/// Number of bytes of texts.
pub open spec fn total_bytes(chunks: Seq<Seq<char>>) -> nat
    decreases chunks.len(),
{
    if chunks.len() == 0 {
        0
    } else {
        byte_len(chunks[0]) + total_bytes(chunks.drop_first())
    }
}

/// The last texts that fit: no more bytes than the window shows, and no more pieces
/// than a limit.
pub open spec fn last_chunks(chunks: Seq<Seq<char>>, limit: nat) -> Seq<Seq<char>>
    decreases chunks.len(),
{
    if chunks.len() > 0 && (total_bytes(chunks) > PREVIEW_LIMIT || chunks.len() > limit) {
        last_chunks(chunks.drop_first(), limit)
    } else {
        chunks
    }
}

/// Texts with one more, of which the end is kept, as far as they fit.
pub open spec fn with_chunk(chunks: Seq<Seq<char>>, text: Seq<char>, limit: nat) -> Seq<Seq<char>> {
    last_chunks(chunks.push(suffix_within(text, PREVIEW_LIMIT as nat)), limit)
}

/// Whether a part of the output is lost when a text is added.
pub open spec fn drops_output(chunks: Seq<Seq<char>>, text: Seq<char>, limit: nat) -> bool {
    byte_len(text) > PREVIEW_LIMIT || with_chunk(chunks, text, limit).len() <= chunks.len()
}

/// Output that is kept within bounds.
#[derive(Debug)]
pub struct BoundedLog {
    pub chunks: VecDeque<String>,
    pub bytes: usize,
    /// Whether a part of the output was lost.
    pub omitted: bool,
}

/// What bounded output holds.
#[verifier::ext_equal]
pub ghost struct LogView {
    pub chunks: Seq<Seq<char>>,
    pub omitted: bool,
}

impl View for BoundedLog {
    type V = LogView;

    open spec fn view(&self) -> LogView {
        LogView { chunks: texts(self.chunks@), omitted: self.omitted }
    }
}

/// Bounded output with one more text.
pub open spec fn log_with(log: LogView, text: Seq<char>, limit: nat) -> LogView {
    LogView {
        chunks: with_chunk(log.chunks, text, limit),
        omitted: log.omitted || drops_output(log.chunks, text, limit),
    }
}

/// Adding a text adds its bytes.
proof fn lemma_total_push(chunks: Seq<Seq<char>>, text: Seq<char>)
    ensures
        total_bytes(chunks.push(text)) == total_bytes(chunks) + byte_len(text),
    decreases chunks.len(),
{
    let more = chunks.push(text);
    if chunks.len() == 0 {
        assert(more.drop_first() =~= Seq::<Seq<char>>::empty());
        assert(total_bytes(more.drop_first()) == 0);
        assert(total_bytes(chunks) == 0);
        assert(more[0] == text);
    } else {
        assert(more[0] == chunks[0]);
        assert(more.drop_first() =~= chunks.drop_first().push(text));
        lemma_total_push(chunks.drop_first(), text);
    }
}

/// What is kept fits.
proof fn lemma_last_chunks_fit(chunks: Seq<Seq<char>>, limit: nat)
    ensures
        total_bytes(last_chunks(chunks, limit)) <= PREVIEW_LIMIT,
        last_chunks(chunks, limit).len() <= limit,
        last_chunks(chunks, limit).len() <= chunks.len(),
    decreases chunks.len(),
{
    if chunks.len() > 0 && (total_bytes(chunks) > PREVIEW_LIMIT || chunks.len() > limit) {
        lemma_last_chunks_fit(chunks.drop_first(), limit);
    }
}

impl BoundedLog {
    /// What the output keeps to: its bytes are counted, and they fit.
    pub open spec fn wf(&self) -> bool {
        self.bytes == total_bytes(self@.chunks) && self.bytes <= PREVIEW_LIMIT
    }

    /// No output.
    pub fn new() -> (r: Self)
        ensures
            r.wf(),
            r@ == (LogView { chunks: Seq::empty(), omitted: false }),
    {
        let r = BoundedLog { chunks: VecDeque::new(), bytes: 0, omitted: false };
        assert(r@.chunks =~= Seq::<Seq<char>>::empty());
        r
    }

    /// Adds a text: of one that is too long the end is kept, and the oldest make
    /// room.
    pub fn push(&mut self, text: &str, limit: usize)
        requires
            old(self).wf(),
        ensures
            final(self).wf(),
            final(self)@ == log_with(old(self)@, text@, limit as nat),
    {
        let ghost before = self@;
        let kept: String = keep_end_within(text, PREVIEW_LIMIT);
        let width: usize = kept.as_str().as_bytes().len();
        if text.as_bytes().len() > PREVIEW_LIMIT {
            self.omitted = true;
        }
        let ghost all = before.chunks.push(kept@);
        proof {
            lemma_total_push(before.chunks, kept@);
        }
        self.chunks.push_back(kept);
        self.bytes = self.bytes + width;
        assert(self@.chunks =~= all);
        let mut dropped: bool = false;
        proof {
            lemma_last_chunks_fit(all, limit as nat);
        }
        while self.bytes > PREVIEW_LIMIT || self.chunks.len() > limit
            invariant
                self.bytes == total_bytes(self@.chunks),
                self@.chunks.len() == self.chunks@.len(),
                self@.chunks.len() <= all.len(),
                last_chunks(self@.chunks, limit as nat) == last_chunks(all, limit as nat),
                dropped == (self@.chunks.len() < all.len()),
                self.omitted == (before.omitted || byte_len(text@) > PREVIEW_LIMIT || dropped),
            decreases self.chunks.len(),
        {
            let ghost chunks = self@.chunks;
            match self.chunks.pop_front() {
                Some(first) => {
                    assert(first@ == chunks[0]);
                    assert(self@.chunks =~= chunks.drop_first());
                    self.bytes = self.bytes - first.as_str().as_bytes().len();
                    self.omitted = true;
                    dropped = true;
                },
                None => {
                    assert(false);
                    return;
                },
            }
        }
        proof {
            assert(self@.chunks == last_chunks(all, limit as nat));
        }
    }
}

/// What waits for the window: output within bounds, and how the deployment ended.
pub struct UiMailbox {
    pub log: BoundedLog,
    pub complete: Option<DeployComplete>,
    /// The window; zero where there is none.
    pub window: usize,
    /// Whether the window was told and has not looked yet.
    pub wake_pending: bool,
}

/// What was taken out of the mailbox.
pub struct Preview {
    pub log: BoundedLog,
    pub complete: Option<DeployComplete>,
}

impl UiMailbox {
    /// The mailbox's output is in order.
    pub open spec fn wf(&self) -> bool {
        self.log.wf()
    }

    /// An empty mailbox without a window.
    pub fn new() -> (r: Self)
        ensures
            r.wf(),
            r.log@ == (LogView { chunks: Seq::empty(), omitted: false }),
            r.complete is None,
            r.window == 0,
            !r.wake_pending,
    {
        UiMailbox { log: BoundedLog::new(), complete: None, window: 0, wake_pending: false }
    }

    /// Names the window that is told of what waits.
    pub fn set_window(&mut self, window: usize)
        ensures
            final(self).window == window,
            final(self).log == old(self).log,
            final(self).complete == old(self).complete,
            final(self).wake_pending == old(self).wake_pending,
    {
        self.window = window;
    }

    /// Whether the window has to be told: once, until it looks.
    fn notify(&mut self) -> (post: bool)
        ensures
            post == (old(self).window != 0 && !old(self).wake_pending),
            final(self).wake_pending == (old(self).wake_pending || post),
            final(self).window == old(self).window,
            final(self).log == old(self).log,
            final(self).complete == old(self).complete,
    {
        if self.window != 0 && !self.wake_pending {
            self.wake_pending = true;
            true
        } else {
            false
        }
    }

    /// Adds output. The result is whether the window has to be told.
    pub fn log(&mut self, text: &str) -> (post: bool)
        requires
            old(self).wf(),
        ensures
            final(self).wf(),
            final(self).log@ == log_with(old(self).log@, text@, PREVIEW_CHUNKS as nat),
            final(self).complete == old(self).complete,
            final(self).window == old(self).window,
            post == (old(self).window != 0 && !old(self).wake_pending),
            final(self).wake_pending == (old(self).wake_pending || post),
    {
        self.log.push(text, PREVIEW_CHUNKS);
        self.notify()
    }

    /// Stores how the deployment ended. The result is whether the window has to be
    /// told.
    pub fn finish(&mut self, done: DeployComplete) -> (post: bool)
        ensures
            final(self).complete == Some(done),
            final(self).log == old(self).log,
            final(self).window == old(self).window,
            post == (old(self).window != 0 && !old(self).wake_pending),
            final(self).wake_pending == (old(self).wake_pending || post),
    {
        self.complete = Some(done);
        self.notify()
    }

    /// Takes whether the window could be told; where not, the next update tries
    /// again.
    pub fn posted(&mut self, posted: bool)
        ensures
            final(self).wake_pending == (old(self).wake_pending && posted),
            final(self).log == old(self).log,
            final(self).complete == old(self).complete,
            final(self).window == old(self).window,
    {
        if !posted {
            self.wake_pending = false;
        }
    }

    /// Takes everything out. The window is told again from now on.
    pub fn take(&mut self) -> (r: Preview)
        requires
            old(self).wf(),
        ensures
            final(self).wf(),
            r.log == old(self).log,
            r.complete == old(self).complete,
            final(self).log@ == (LogView { chunks: Seq::empty(), omitted: false }),
            final(self).complete is None,
            final(self).window == old(self).window,
            !final(self).wake_pending,
    {
        self.wake_pending = false;
        let mut log: BoundedLog = BoundedLog::new();
        std::mem::swap(&mut log, &mut self.log);
        let complete: Option<DeployComplete> = self.complete.take();
        Preview { log, complete }
    }
}

/// What a deployment's process ended with.
#[derive(Debug, PartialEq, Eq)]
pub struct ExitReport {
    pub success: bool,
    pub code: Option<i32>,
    /// The status as a text.
    pub text: String,
}

/// How the deployment ended, by its process or by why there was none.
pub fn completion(result: Result<ExitReport, String>) -> (r: DeployComplete)
    ensures
        r@ == (match result {
            Ok(report) => DeployCompleteView {
                success: report.success,
                exit_code: report.code,
                message: if report.success {
                    "Rime 数据部署成功。"@
                } else {
                    "Rime 数据部署失败："@ + report.text@
                },
            },
            Err(error) => DeployCompleteView { success: false, exit_code: None, message: error@ },
        }),
{
    match result {
        Ok(report) => DeployComplete {
            success: report.success,
            exit_code: report.code,
            message: if report.success {
                "Rime 数据部署成功。".to_owned()
            } else {
                join2("Rime 数据部署失败：", &report.text)
            },
        },
        Err(error) => DeployComplete { success: false, exit_code: None, message: error },
    }
}

/// What the log says of a deployment.
pub fn diagnostic(message: &str) -> (r: String)
    ensures
        r@ == "deployment diagnostic: "@ + message@,
{
    join2("deployment diagnostic: ", message)
}

/// Whether bytes are the beginning of a character, and not all of it.
pub open spec fn starts_character(bytes: Seq<u8>) -> bool {
    bytes.len() > 0 && exists|c: char|
        bytes.len() < #[trigger] encode_scalar(c as u32).len() && encode_scalar(c as u32).take(
            bytes.len() as int,
        ) == bytes
}

/// Number of bytes of the longest valid beginning, among those no longer than a
/// number.
pub open spec fn valid_prefix(bytes: Seq<u8>, k: int) -> int
    decreases k,
{
    if k <= 0 {
        0
    } else if valid_utf8(bytes.take(k)) {
        k
    } else {
        valid_prefix(bytes, k - 1)
    }
}

/// Text of bytes that need not be valid: what is invalid is replaced.
pub uninterp spec fn lossy_text(bytes: Seq<u8>) -> Seq<char>;

/// `std::str::from_utf8`: number of bytes up to which they are valid, which no
/// longer beginning is, and whether the rest is a character that has not wholly
/// arrived.
#[verifier::external_body]
fn check_utf8(bytes: &[u8]) -> (r: (usize, bool))
    ensures
        r.0 <= bytes@.len(),
        valid_utf8(bytes@.take(r.0 as int)),
        forall|k: int| r.0 < k <= bytes@.len() ==> !valid_utf8(#[trigger] bytes@.take(k)),
        r.1 == starts_character(bytes@.skip(r.0 as int)),
{
    match std::str::from_utf8(bytes) {
        Ok(_) => (bytes.len(), false),
        Err(error) => (error.valid_up_to(), error.error_len().is_none()),
    }
}

/// `String::from_utf8_lossy`: valid bytes become the text that they encode; what
/// becomes of others depends on the bytes alone.
#[verifier::external_body]
fn decode_lossy(bytes: &[u8]) -> (r: String)
    ensures
        r@ == lossy_text(bytes@),
        valid_utf8(bytes@) ==> r@ == decode_utf8(bytes@),
{
    String::from_utf8_lossy(bytes).into_owned()
}

/// Number of bytes that are decoded now: all, but for a character that has not
/// wholly arrived, unless nothing more comes.
pub open spec fn usable(bytes: Seq<u8>, eof: bool) -> int {
    let valid = valid_prefix(bytes, bytes.len() as int);
    if !eof && starts_character(bytes.skip(valid)) {
        valid
    } else {
        bytes.len() as int
    }
}

/// The longest valid beginning is the one that no longer one is.
proof fn lemma_valid_prefix(bytes: Seq<u8>, n: int, k: int)
    requires
        0 <= n <= k <= bytes.len(),
        valid_utf8(bytes.take(n)),
        forall|j: int| n < j <= bytes.len() ==> !valid_utf8(#[trigger] bytes.take(j)),
    ensures
        valid_prefix(bytes, k) == n,
    decreases k,
{
    if k > n {
        lemma_valid_prefix(bytes, n, k - 1);
    }
}

/// Text that comes in pieces, which may end within a character.
#[derive(Debug, PartialEq, Eq)]
pub struct Utf8Stream {
    pub rest: Vec<u8>,
}

impl Utf8Stream {
    /// Nothing has come.
    pub fn new() -> (r: Self)
        ensures
            r.rest@ == Seq::<u8>::empty(),
    {
        Utf8Stream { rest: Vec::new() }
    }

    /// Decodes what has come. A character that has not wholly arrived waits for its
    /// rest; what is invalid is replaced, so that nothing waits for ever.
    pub fn feed(&mut self, bytes: &[u8], eof: bool) -> (r: String)
        ensures
            ({
                let all = old(self).rest@ + bytes@;
                let n = usable(all, eof);
                &&& 0 <= n <= all.len()
                &&& final(self).rest@ == all.skip(n)
                &&& r@ == lossy_text(all.take(n))
                &&& valid_utf8(all.take(n)) ==> r@ == decode_utf8(all.take(n))
            }),
    {
        let ghost start = self.rest@;
        self.rest.extend_from_slice(bytes);
        let ghost all = start + bytes@;
        assert(self.rest@ =~= all);
        let (valid, waits): (usize, bool) = check_utf8(self.rest.as_slice());
        proof {
            lemma_valid_prefix(all, valid as int, all.len() as int);
        }
        let n: usize = if !eof && waits {
            valid
        } else {
            self.rest.len()
        };
        let later: Vec<u8> = self.rest.split_off(n);
        let text: String = decode_lossy(self.rest.as_slice());
        assert(self.rest@ =~= all.take(n as int));
        assert(later@ =~= all.skip(n as int));
        self.rest = later;
        text
    }
}

/// Of valid text that comes in pieces nothing is lost: what is decoded now, and what
/// waits together with what is still to come, are valid, and make up the whole text.
pub proof fn law_split_text_is_preserved(waiting: Seq<u8>, piece: Seq<u8>, later: Seq<u8>)
    requires
        valid_utf8(waiting + piece + later),
    ensures
        ({
            let now = waiting + piece;
            let n = usable(now, false);
            &&& 0 <= n <= now.len()
            &&& valid_utf8(now.take(n))
            &&& valid_utf8(now.skip(n) + later)
            &&& decode_utf8(waiting + piece + later) == decode_utf8(now.take(n)) + decode_utf8(
                now.skip(n) + later,
            )
        }),
{
    let now = waiting + piece;
    let whole = now + later;
    let v = valid_prefix(now, now.len() as int);
    lemma_prefix_is_valid(now, now.len() as int);
    assert(whole.take(v) =~= now.take(v));
    assert(whole.subrange(0, v) =~= whole.take(v));
    assert(whole.subrange(v, whole.len() as int) =~= now.skip(v) + later);
    let tail = now.skip(v) + later;
    if !valid_utf8(tail) {
        partial_valid_partial_invalid_utf8(whole, v);
    }
    if v < now.len() {
        assert(valid_first_scalar(tail));
        decode_utf8_first_scalar(tail);
        let c = decode_first_scalar(tail) as char;
        let width = length_of_first_scalar(tail);
        assert(encode_scalar(c as u32) == take_first_scalar(tail));
        if width <= now.len() - v {
            // The next character would have been valid as well.
            let longer = now.take(v + width);
            assert(longer =~= now.take(v) + take_first_scalar(tail));
            reveal_with_fuel(valid_utf8, 2);
            assert(valid_utf8(take_first_scalar(tail)));
            valid_utf8_concat(now.take(v), take_first_scalar(tail));
            lemma_no_longer_prefix(now, now.len() as int, v + width);
        } else {
            assert(encode_scalar(c as u32).take((now.len() - v) as int) =~= now.skip(v));
            assert(starts_character(now.skip(v)));
        }
    }
    assert(usable(now, false) == v);
    let first = decode_utf8(now.take(v));
    let second = decode_utf8(tail);
    decode_utf8_encode_utf8(now.take(v));
    decode_utf8_encode_utf8(tail);
    lemma_encode_concat(first, second);
    assert(now.take(v) + tail =~= whole);
    encode_utf8_decode_utf8(first + second);
}

/// The longest valid beginning is valid.
proof fn lemma_prefix_is_valid(bytes: Seq<u8>, k: int)
    requires
        0 <= k <= bytes.len(),
    ensures
        0 <= valid_prefix(bytes, k) <= k,
        valid_utf8(bytes.take(valid_prefix(bytes, k))),
    decreases k,
{
    if k > 0 && !valid_utf8(bytes.take(k)) {
        lemma_prefix_is_valid(bytes, k - 1);
    }
    if k == 0 {
        assert(bytes.take(0).len() == 0);
    }
}

/// No longer beginning than the longest valid one is valid.
proof fn lemma_no_longer_prefix(bytes: Seq<u8>, k: int, j: int)
    requires
        0 <= k <= bytes.len(),
        valid_prefix(bytes, k) < j <= k,
    ensures
        !valid_utf8(bytes.take(j)),
    decreases k,
{
    if j < k && k > 0 && !valid_utf8(bytes.take(k)) {
        lemma_no_longer_prefix(bytes, k - 1, j);
    }
}

/// At the end of the output nothing waits, and valid text comes out as it is.
pub proof fn law_end_decodes_everything(waiting: Seq<u8>, piece: Seq<u8>)
    ensures
        usable(waiting + piece, true) == (waiting + piece).len(),
{
}

/// Where the output of a deployment's process is read from.
#[derive(Clone, Copy, Debug, PartialEq, Eq, Structural)]
pub enum OutputStream {
    Stdout,
    Stderr,
}

/// A stream's name.
pub open spec fn stream_name(stream: OutputStream) -> Seq<char> {
    match stream {
        OutputStream::Stdout => "stdout"@,
        OutputStream::Stderr => "stderr"@,
    }
}

impl OutputStream {
    /// The stream's name.
    pub fn name(self) -> (r: &'static str)
        ensures
            r@ == stream_name(self),
    {
        match self {
            OutputStream::Stdout => "stdout",
            OutputStream::Stderr => "stderr",
        }
    }
}

/// What is read of one of a process's streams.
pub struct StreamReader {
    pub decoder: Utf8Stream,
    /// Whether nothing more comes.
    pub eof: bool,
}

/// The output of a deployment's process, as far as it was read.
pub struct ProcessOutput {
    pub stdout: StreamReader,
    pub stderr: StreamReader,
    /// Why a stream could not be read to its end.
    pub read_error: Option<String>,
}

impl StreamReader {
    /// Nothing has been read.
    pub fn new() -> (r: Self)
        ensures
            r.decoder.rest@ == Seq::<u8>::empty(),
            !r.eof,
    {
        StreamReader { decoder: Utf8Stream::new(), eof: false }
    }

    /// Takes what was read; nothing means the end. The result is the text to hand
    /// on, where there is any.
    pub fn read(&mut self, bytes: &[u8]) -> (r: Option<String>)
        ensures
            ({
                let all = old(self).decoder.rest@ + bytes@;
                let n = usable(all, bytes@.len() == 0);
                &&& final(self).decoder.rest@ == all.skip(n)
                &&& final(self).eof == (old(self).eof || bytes@.len() == 0)
                &&& match r {
                    Some(text) => text@ == lossy_text(all.take(n)) && text@.len() > 0,
                    None => lossy_text(all.take(n)).len() == 0,
                }
            }),
    {
        let eof: bool = bytes.len() == 0;
        let text: String = self.decoder.feed(bytes, eof);
        if eof {
            self.eof = true;
        }
        if text.as_str().is_empty() {
            None
        } else {
            Some(text)
        }
    }
}

impl ProcessOutput {
    /// Nothing has been read.
    pub fn new() -> (r: Self)
        ensures
            r.stdout.decoder.rest@ == Seq::<u8>::empty(),
            r.stderr.decoder.rest@ == Seq::<u8>::empty(),
            !r.stdout.eof,
            !r.stderr.eof,
            r.read_error is None,
    {
        ProcessOutput {
            stdout: StreamReader::new(),
            stderr: StreamReader::new(),
            read_error: None,
        }
    }

    /// Takes what was read of a stream. Where it could not be read, that is noted,
    /// and nothing more is expected of it. The result is the text to hand on.
    pub fn read(&mut self, stream: OutputStream, bytes: Result<Vec<u8>, String>) -> (r: Option<
        String,
    >)
        ensures
            ({
                let (before, after, other_before, other_after) = match stream {
                    OutputStream::Stdout => (
                        old(self).stdout,
                        final(self).stdout,
                        old(self).stderr,
                        final(self).stderr,
                    ),
                    OutputStream::Stderr => (
                        old(self).stderr,
                        final(self).stderr,
                        old(self).stdout,
                        final(self).stdout,
                    ),
                };
                let piece = match bytes {
                    Ok(data) => data@,
                    Err(_) => Seq::empty(),
                };
                let all = before.decoder.rest@ + piece;
                let n = usable(all, piece.len() == 0);
                &&& other_after == other_before
                &&& after.decoder.rest@ == all.skip(n)
                &&& after.eof == (before.eof || piece.len() == 0)
                &&& match r {
                    Some(text) => text@ == lossy_text(all.take(n)) && text@.len() > 0,
                    None => lossy_text(all.take(n)).len() == 0,
                }
                &&& match bytes {
                    Ok(_) => final(self).read_error == old(self).read_error,
                    Err(error) => final(self).read_error matches Some(text) && text@
                        == stream_name(stream) + " read failed: "@ + error@,
                }
            }),
    {
        let data: Vec<u8> = match bytes {
            Ok(data) => data,
            Err(error) => {
                self.read_error = Some(
                    crate::text::join3(stream.name(), " read failed: ", &error),
                );
                Vec::new()
            },
        };
        match stream {
            OutputStream::Stdout => self.stdout.read(data.as_slice()),
            OutputStream::Stderr => self.stderr.read(data.as_slice()),
        }
    }
}

/// Whatever is logged, the waiting output stays within its bounds.
pub proof fn law_preview_is_bounded(chunks: Seq<Seq<char>>, text: Seq<char>, limit: nat)
    ensures
        total_bytes(with_chunk(chunks, text, limit)) <= PREVIEW_LIMIT,
        with_chunk(chunks, text, limit).len() <= limit,
{
    lemma_last_chunks_fit(chunks.push(suffix_within(text, PREVIEW_LIMIT as nat)), limit);
}

} // verus!
