//! Which part of a deployment's output is kept, and which of its bytes are decoded.
#[allow(unused_imports)]
use super::{
    drops_output, last_chunks, log_with, total_bytes, usable, valid_prefix, with_chunk, LogView,
};
#[allow(unused_imports)]
use crate::text::{byte_len, suffix_within};
#[allow(unused_imports)]
use vstd::utf8::valid_utf8;
use vstd::prelude::*;

verus! {

/// Texts are as long together as in two parts.
pub proof fn law_lengths_add_up(a: Seq<Seq<char>>, b: Seq<Seq<char>>)
    ensures
        total_bytes(a + b) == total_bytes(a) + total_bytes(b),
        a.len() == 1 ==> total_bytes(a) == byte_len(a[0]),
    decreases a.len(),
{
    if a.len() == 1 {
        assert(a.drop_first() =~= Seq::<Seq<char>>::empty());
        assert(total_bytes(a.drop_first()) == 0);
    }
    if a.len() == 0 {
        assert(a + b =~= b);
    } else {
        law_lengths_add_up(a.drop_first(), b);
        assert((a + b).drop_first() =~= a.drop_first() + b);
    }
}

/// What is kept of texts is an end of them that fits, and no longer end does.
pub proof fn law_newest_texts_are_kept(chunks: Seq<Seq<char>>, limit: nat)
    ensures
        ({
            let kept = last_chunks(chunks, limit);
            let lost = chunks.len() - kept.len();
            &&& 0 <= lost
            &&& kept == chunks.skip(lost)
            &&& kept.len() <= limit
            &&& kept.len() == 0 || total_bytes(kept) <= 262144
            &&& lost > 0 ==> total_bytes(chunks.skip(lost - 1)) > 262144 || kept.len() == limit
        }),
    decreases chunks.len(),
{
    if chunks.len() > 0 && (total_bytes(chunks) > 262144 || chunks.len() > limit) {
        let rest = chunks.drop_first();
        law_newest_texts_are_kept(rest, limit);
        let kept = last_chunks(rest, limit);
        let lost = rest.len() - kept.len();
        assert(rest.skip(lost) =~= chunks.skip(lost + 1));
        if lost > 0 {
            assert(rest.skip(lost - 1) =~= chunks.skip(lost));
        } else {
            assert(chunks.skip(0) =~= chunks);
        }
    } else {
        assert(chunks.skip(0) =~= chunks);
    }
}

/// While there is room, a text is added behind the others as it is and nothing is lost; the
/// newest text is there in any case, where there is room for a text at all.
pub proof fn law_text_is_added_behind_the_others(log: LogView, text: Seq<char>, limit: nat)
    ensures
        total_bytes(log.chunks) + byte_len(text) <= 262144 && log.chunks.len() < limit
            ==> log_with(log, text, limit) == (LogView {
            chunks: log.chunks.push(text),
            omitted: log.omitted,
        }),
        byte_len(text) <= 262144 && limit > 0 ==> log_with(log, text, limit).chunks.len() > 0
            && log_with(log, text, limit).chunks.last() == text,
        log.omitted ==> log_with(log, text, limit).omitted,
{
    crate::text::laws::law_suffix_is_an_end(text, 262144);
    let kept = suffix_within(text, 262144);
    let all = log.chunks.push(kept);
    law_newest_texts_are_kept(all, limit);
    law_lengths_add_up(log.chunks, seq![kept]);
    law_lengths_add_up(seq![kept], Seq::empty());
    assert(all =~= log.chunks + seq![kept]);
    if byte_len(text) <= 262144 && limit > 0 {
        let last = last_chunks(all, limit);
        let lost = all.len() - last.len();
        if last.len() == 0 {
            assert(all.skip(lost - 1) =~= seq![kept]);
        }
    }
}

/// Output is said to be missing exactly where some of it is: a text was cut off, or an older
/// one made room.
pub proof fn law_missing_output_is_noted(log: LogView, text: Seq<char>, limit: nat)
    requires
        !log.omitted,
    ensures
        log_with(log, text, limit).omitted <==> byte_len(text) > 262144 || log_with(
            log,
            text,
            limit,
        ).chunks.len() < log.chunks.len() + 1,
{
}

/// What is decoded is a beginning of what has come. All of it is decoded at the end, and
/// before where it is valid; at most three bytes ever wait.
pub proof fn law_valid_bytes_do_not_wait(bytes: Seq<u8>)
    ensures
        0 <= usable(bytes, false) <= bytes.len(),
        usable(bytes, true) == bytes.len(),
        valid_utf8(bytes) ==> usable(bytes, false) == bytes.len(),
        bytes.len() - usable(bytes, false) <= 3,
{
    lemma_prefix_bounds(bytes, bytes.len() as int);
    let valid = valid_prefix(bytes, bytes.len() as int);
    assert(bytes.take(bytes.len() as int) =~= bytes);
    if usable(bytes, false) < bytes.len() {
        let rest = bytes.skip(valid);
        assert(super::starts_character(rest));
        let c = choose|c: char|
            rest.len() < #[trigger] vstd::utf8::encode_scalar(c as u32).len()
                && vstd::utf8::encode_scalar(c as u32).take(rest.len() as int) == rest;
        assert(vstd::utf8::encode_scalar(c as u32).len() <= 4);
    }
}

/// A valid beginning is no longer than what there is.
proof fn lemma_prefix_bounds(bytes: Seq<u8>, k: int)
    requires
        0 <= k <= bytes.len(),
    ensures
        0 <= valid_prefix(bytes, k) <= k,
    decreases k,
{
    if k > 0 && !valid_utf8(bytes.take(k)) {
        lemma_prefix_bounds(bytes, k - 1);
    }
}

} // verus!
