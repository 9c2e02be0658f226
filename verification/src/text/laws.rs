//! What holds of the parts, the lengths and the joining of all texts.
#[allow(unused_imports)]
use super::{
    blank, byte_len, decimal, digit, has_nul, head_of, joined, lemma_prefix_bytes, not_nul,
    prefix_within, suffix_within, utf16_len, utf16_width, white_space, without_nul,
};
use vstd::prelude::*;

verus! {

/// The code units of a text are those of its parts: one of each character of the basic
/// plane, and two of each other.
pub proof fn law_utf16_counts_the_parts(a: Seq<char>, b: Seq<char>, c: char)
    ensures
        utf16_len(a + b) == utf16_len(a) + utf16_len(b),
        utf16_len(Seq::<char>::empty()) == 0,
        utf16_len(seq![c]) == (if (c as u32) < 0x1_0000 {
            1nat
        } else {
            2nat
        }),
    decreases b.len(),
{
    reveal_with_fuel(utf16_len, 2);
    assert(seq![c].drop_last() =~= Seq::<char>::empty());
    if b.len() == 0 {
        assert(a + b =~= a);
    } else {
        law_utf16_counts_the_parts(a, b.drop_last(), c);
        assert((a + b).drop_last() =~= a + b.drop_last());
        assert((a + b).last() == b.last());
    }
}

/// A beginning of a text has no more code units than the text.
pub proof fn law_utf16_grows(text: Seq<char>, n: int)
    requires
        0 <= n <= text.len(),
    ensures
        utf16_len(text.take(n)) <= utf16_len(text),
{
    law_utf16_counts_the_parts(text.take(n), text.skip(n), 'a');
    assert(text.take(n) + text.skip(n) =~= text);
}

/// What is cut off at the end leaves a beginning of the text that fits, and no longer
/// beginning does.
pub proof fn law_prefix_is_the_longest(text: Seq<char>, limit: nat, n: int)
    requires
        0 <= n <= text.len(),
    ensures
        ({
            let kept = prefix_within(text, limit);
            &&& kept.len() <= text.len()
            &&& kept == text.take(kept.len() as int)
            &&& byte_len(kept) <= limit
            &&& byte_len(text.take(n)) <= limit ==> n <= kept.len()
        }),
    decreases text.len(),
{
    assert(vstd::utf8::encode_utf8(Seq::<char>::empty()) =~= Seq::<u8>::empty());
    if text.len() == 0 || byte_len(text) <= limit {
        assert(text.take(text.len() as int) =~= text);
        assert(text.len() == 0 ==> text =~= Seq::<char>::empty());
    } else {
        let shorter = text.drop_last();
        if n < text.len() {
            law_prefix_is_the_longest(shorter, limit, n);
            assert(shorter.take(n) =~= text.take(n));
        } else {
            law_prefix_is_the_longest(shorter, limit, 0);
            assert(text.take(n) =~= text);
        }
        let kept = prefix_within(text, limit);
        assert(shorter.take(kept.len() as int) =~= text.take(kept.len() as int));
    }
}

/// What is cut off at the start leaves an end of the text; where the whole text fits,
/// nothing is cut off.
pub proof fn law_suffix_is_an_end(text: Seq<char>, limit: nat)
    ensures
        ({
            let kept = suffix_within(text, limit);
            &&& kept.len() <= text.len()
            &&& kept == text.skip(text.len() - kept.len())
            &&& byte_len(kept) <= limit
            &&& byte_len(text) <= limit ==> kept == text
            &&& kept.len() < text.len() ==> byte_len(text.skip(text.len() - kept.len() - 1)) > limit
        }),
    decreases text.len(),
{
    assert(vstd::utf8::encode_utf8(Seq::<char>::empty()) =~= Seq::<u8>::empty());
    if text.len() == 0 || byte_len(text) <= limit {
        assert(text.skip(0) =~= text);
        assert(text.len() == 0 ==> text =~= Seq::<char>::empty());
    } else {
        let shorter = text.drop_first();
        law_suffix_is_an_end(shorter, limit);
        let kept = suffix_within(text, limit);
        assert(shorter.skip(shorter.len() - kept.len()) =~= text.skip(text.len() - kept.len()));
        if kept.len() < shorter.len() {
            assert(shorter.skip(shorter.len() - kept.len() - 1) =~= text.skip(
                text.len() - kept.len() - 1,
            ));
        } else {
            assert(text.skip(0) =~= text);
        }
    }
}

/// The first characters of a text are as many as asked for, if it has that many, and all
/// of them stand where they stood.
pub proof fn law_head_keeps_the_first(text: Seq<char>, count: nat, i: int)
    ensures
        head_of(text, count).len() == (if text.len() < count {
            text.len()
        } else {
            count
        }),
        0 <= i < head_of(text, count).len() ==> head_of(text, count)[i] == text[i],
{
}

/// Without its NUL characters a text has none, and a text that had none is as it was;
/// what stands between them stays in its order.
pub proof fn law_only_nul_is_dropped(a: Seq<char>, b: Seq<char>)
    ensures
        !has_nul(without_nul(a)),
        !has_nul(a) ==> without_nul(a) == a,
        without_nul(a + b) == without_nul(a) + without_nul(b),
        without_nul(a).len() <= a.len(),
{
    lemma_without_nul(a);
    Seq::filter_distributes_over_add(a, b, not_nul());
}

/// A text without its NUL characters has none of them, and all others.
proof fn lemma_without_nul(a: Seq<char>)
    ensures
        !has_nul(without_nul(a)),
        !has_nul(a) ==> without_nul(a) == a,
        without_nul(a).len() <= a.len(),
    decreases a.len(),
{
    reveal(Seq::filter);
    if a.len() > 0 {
        let rest = a.drop_last();
        lemma_without_nul(rest);
        if !has_nul(a) {
            assert(!has_nul(rest)) by {
                if has_nul(rest) {
                    let i = choose|i: int| 0 <= i < rest.len() && #[trigger] rest[i] == '\0';
                    assert(a[i] == '\0');
                }
            }
            assert(a[a.len() - 1] != '\0');
            assert(a =~= rest.push(a.last()));
        }
        let kept = without_nul(rest);
        if has_nul(without_nul(a)) {
            let i = choose|i: int|
                0 <= i < without_nul(a).len() && #[trigger] without_nul(a)[i] == '\0';
            if i < kept.len() {
                assert(kept[i] == '\0');
            }
        }
    }
}

/// Texts are joined in their order, with the separator between every two, and nowhere
/// else.
pub proof fn law_joined_in_order(texts: Seq<Seq<char>>, next: Seq<char>, separator: Seq<char>)
    ensures
        joined(Seq::<Seq<char>>::empty(), separator).len() == 0,
        joined(seq![next], separator) == next,
        texts.len() > 0 ==> joined(texts.push(next), separator) == joined(texts, separator)
            + separator + next,
{
    assert(texts.push(next).drop_last() =~= texts);
}

/// The number that decimal digits write.
pub open spec fn number_of(digits: Seq<char>) -> int
    decreases digits.len(),
{
    if digits.len() == 0 {
        0
    } else {
        10 * number_of(digits.drop_last()) + (digits.last() as int - '0' as int)
    }
}

/// A number that is written down can be read again, from digits alone and without a zero
/// before it.
pub proof fn law_decimal_can_be_read_again(n: nat)
    ensures
        number_of(decimal(n)) == n,
        decimal(n).len() > 0,
        forall|i: int| 0 <= i < decimal(n).len() ==> '0' <= #[trigger] decimal(n)[i] <= '9',
        n > 0 ==> decimal(n)[0] != '0',
    decreases n,
{
    reveal_with_fuel(number_of, 2);
    if n < 10 {
        assert(seq![digit(n)].drop_last() =~= Seq::<char>::empty());
    } else {
        law_decimal_can_be_read_again(n / 10);
        assert(decimal(n).drop_last() =~= decimal(n / 10));
    }
}

/// Of the characters that every system has, the blank and those that move the cursor are
/// white space, and no other is.
pub proof fn law_plain_white_space(c: char)
    requires
        (c as u32) < 0x80,
    ensures
        white_space(c) <==> c == ' ' || c == '\t' || c == '\n' || c == '\r' || (c as u32) == 0xb || (
        c as u32) == 0xc,
        blank(seq![c]) <==> white_space(c),
{
    assert(seq![c][0] == c);
}

} // verus!
