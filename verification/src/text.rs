//! Measuring, comparing and joining text.
use vstd::prelude::*;
use vstd::string::*;
use vstd::utf8::*;

pub mod laws;

verus! {

/// Number of bytes of a text in UTF-8.
pub open spec fn byte_len(text: Seq<char>) -> nat {
    encode_utf8(text).len()
}

/// Number of bytes of a text in UTF-8.
pub fn len_bytes(text: &str) -> (r: usize)
    ensures
        r == byte_len(text@),
{
    text.as_bytes().len()
}

/// Whether two texts are the same.
pub fn same_text(a: &str, b: &str) -> (r: bool)
    ensures
        r == (a@ == b@),
{
    a.to_owned() == b.to_owned()
}

/// Whether a text holds the NUL character.
pub open spec fn has_nul(text: Seq<char>) -> bool {
    exists|i: int| 0 <= i < text.len() && #[trigger] text[i] == '\0'
}

/// Whether a text holds the NUL character.
pub fn contains_nul(text: &str) -> (r: bool)
    ensures
        r == has_nul(text@),
{
    let mut found: bool = false;
    for c in it: text.chars()
        invariant
            it.seq() == text@,
            found == exists|i: int| 0 <= i < it.index() && #[trigger] text@[i] == '\0',
    {
        let ghost k = it.index();
        assert(c == text@[k as int]);
        if c == '\0' {
            assert(text@[k as int] == '\0');
            found = true;
        }
    }
    found
}

/// One text after another.
pub fn join2(a: &str, b: &str) -> (r: String)
    ensures
        r@ == a@ + b@,
{
    let mut text: String = a.to_owned();
    text.append(b);
    text
}

/// Three texts, one after another.
pub fn join3(a: &str, b: &str, c: &str) -> (r: String)
    ensures
        r@ == a@ + b@ + c@,
{
    let mut text: String = a.to_owned();
    text.append(b);
    text.append(c);
    text
}

/// The decimal digits of a number.
pub open spec fn decimal(n: nat) -> Seq<char>
    decreases n,
{
    if n < 10 {
        seq![digit(n)]
    } else {
        decimal(n / 10).push(digit(n % 10))
    }
}

/// The character of a decimal digit.
pub open spec fn digit(n: nat) -> char {
    if n == 0 {
        '0'
    } else if n == 1 {
        '1'
    } else if n == 2 {
        '2'
    } else if n == 3 {
        '3'
    } else if n == 4 {
        '4'
    } else if n == 5 {
        '5'
    } else if n == 6 {
        '6'
    } else if n == 7 {
        '7'
    } else if n == 8 {
        '8'
    } else {
        '9'
    }
}

/// The text of a decimal digit.
fn digit_text(n: u64) -> (r: &'static str)
    requires
        n < 10,
    ensures
        r@ == seq![digit(n as nat)],
{
    proof {
        reveal_strlit("0");
        reveal_strlit("1");
        reveal_strlit("2");
        reveal_strlit("3");
        reveal_strlit("4");
        reveal_strlit("5");
        reveal_strlit("6");
        reveal_strlit("7");
        reveal_strlit("8");
        reveal_strlit("9");
    }
    let r: &'static str = match n {
        0 => "0",
        1 => "1",
        2 => "2",
        3 => "3",
        4 => "4",
        5 => "5",
        6 => "6",
        7 => "7",
        8 => "8",
        _ => "9",
    };
    assert(r@ =~= seq![digit(n as nat)]);
    r
}

/// A number in decimal digits, without leading zeros.
pub fn decimal_text(n: u64) -> (r: String)
    ensures
        r@ == decimal(n as nat),
    decreases n,
{
    if n < 10 {
        digit_text(n).to_owned()
    } else {
        let mut text: String = decimal_text(n / 10);
        text.append(digit_text(n % 10));
        assert(text@ =~= decimal(n as nat));
        text
    }
}

/// `String::push` appends a character.
pub assume_specification[ String::push ](text: &mut String, c: char)
    ensures
        final(text)@ == old(text)@.push(c),
;

/// Appending a character appends its bytes.
pub proof fn lemma_encode_push(text: Seq<char>, c: char)
    ensures
        encode_utf8(text.push(c)) == encode_utf8(text) + encode_scalar(c as u32),
    decreases text.len(),
{
    let longer = text.push(c);
    if text.len() == 0 {
        assert(longer.drop_first() =~= Seq::<char>::empty());
        assert(encode_utf8(longer.drop_first()) =~= Seq::<u8>::empty());
        assert(encode_utf8(longer) =~= encode_utf8(text) + encode_scalar(c as u32));
    } else {
        assert(longer.drop_first() =~= text.drop_first().push(c));
        lemma_encode_push(text.drop_first(), c);
        assert(encode_utf8(longer) =~= encode_utf8(text) + encode_scalar(c as u32));
    }
}

/// Number of bytes of a character in UTF-8.
pub open spec fn char_bytes(c: char) -> nat {
    encode_scalar(c as u32).len()
}

/// Number of bytes of a character in UTF-8.
pub fn char_len(c: char) -> (r: usize)
    ensures
        r == char_bytes(c),
        1 <= r <= 4,
{
    let v: u32 = c as u32;
    if v <= 0x7f {
        1
    } else if v <= 0x7ff {
        2
    } else if v <= 0xffff {
        3
    } else {
        4
    }
}

/// A longer prefix of a text has no fewer bytes.
pub proof fn lemma_prefix_bytes(text: Seq<char>, shorter: int, longer: int)
    requires
        0 <= shorter <= longer <= text.len(),
    ensures
        byte_len(text.take(shorter)) + (longer - shorter) <= byte_len(text.take(longer)),
    decreases longer - shorter,
{
    if shorter < longer {
        lemma_prefix_bytes(text, shorter, longer - 1);
        assert(text.take(longer) =~= text.take(longer - 1).push(text[longer - 1]));
        lemma_encode_push(text.take(longer - 1), text[longer - 1]);
    }
}

/// The longest prefix of a text that has no more bytes than a limit.
pub open spec fn prefix_within(text: Seq<char>, limit: nat) -> Seq<char>
    decreases text.len(),
{
    if text.len() == 0 || byte_len(text) <= limit {
        text
    } else {
        prefix_within(text.drop_last(), limit)
    }
}

/// A prefix that fits, and that no longer one does, is the longest.
pub proof fn lemma_prefix_within(text: Seq<char>, limit: nat, n: int)
    requires
        0 <= n <= text.len(),
        byte_len(text.take(n)) <= limit,
        n < text.len() ==> byte_len(text.take(n + 1)) > limit,
    ensures
        prefix_within(text, limit) == text.take(n),
    decreases text.len(),
{
    if n == text.len() {
        assert(text.take(n) =~= text);
    } else {
        lemma_prefix_bytes(text, n + 1, text.len() as int);
        assert(text.take(text.len() as int) =~= text);
        let shorter = text.drop_last();
        assert(shorter.take(n) =~= text.take(n));
        if n < shorter.len() {
            assert(shorter.take(n + 1) =~= text.take(n + 1));
        }
        lemma_prefix_within(shorter, limit, n);
    }
}

/// The longest suffix of a text that has no more bytes than a limit.
pub open spec fn suffix_within(text: Seq<char>, limit: nat) -> Seq<char>
    decreases text.len(),
{
    if text.len() == 0 || byte_len(text) <= limit {
        text
    } else {
        suffix_within(text.drop_first(), limit)
    }
}

/// The longest suffix fits.
pub proof fn lemma_suffix_fits(text: Seq<char>, limit: nat)
    ensures
        byte_len(suffix_within(text, limit)) <= limit,
    decreases text.len(),
{
    if text.len() == 0 {
        assert(encode_utf8(text) =~= Seq::<u8>::empty());
    } else if byte_len(text) > limit {
        lemma_suffix_fits(text.drop_first(), limit);
    }
}

/// The bytes of two texts, one after the other.
pub proof fn lemma_encode_concat(a: Seq<char>, b: Seq<char>)
    ensures
        encode_utf8(a + b) == encode_utf8(a) + encode_utf8(b),
    decreases a.len(),
{
    if a.len() == 0 {
        assert(a + b =~= b);
        assert(encode_utf8(a) + encode_utf8(b) =~= encode_utf8(b));
    } else {
        assert((a + b).drop_first() =~= a.drop_first() + b);
        lemma_encode_concat(a.drop_first(), b);
        assert(encode_utf8(a + b) =~= encode_utf8(a) + encode_utf8(b));
    }
}

/// The longest suffix of a text that has no more bytes than a limit.
pub fn keep_end_within(text: &str, limit: usize) -> (r: String)
    ensures
        r@ == suffix_within(text@, limit as nat),
        byte_len(r@) <= limit,
{
    let mut left: usize = text.as_bytes().len();
    let mut kept: String = String::new();
    let ghost all = text@;
    proof {
        assert(all.skip(0) =~= all);
    }
    for c in it: text.chars()
        invariant
            it.seq() == all,
            all == text@,
            kept@.len() == 0 ==> left == byte_len(all.skip(it.index() as int)),
            kept@.len() == 0 ==> suffix_within(all, limit as nat) == suffix_within(
                all.skip(it.index() as int),
                limit as nat,
            ),
            kept@.len() > 0 ==> left <= limit && kept@.len() <= it.index() && kept@
                == all.subrange(it.index() as int - kept@.len(), it.index() as int)
                && suffix_within(all, limit as nat) == all.skip(it.index() as int - kept@.len()),
    {
        let ghost k = it.index() as int;
        let ghost rest = all.skip(k);
        proof {
            assert(c == all[k]);
            assert(rest[0] == c);
            assert(rest.drop_first() =~= all.skip(k + 1));
        }
        if left <= limit {
            let ghost before = kept@;
            kept.push(c);
            proof {
                let start = k - before.len();
                assert(kept@ =~= all.subrange(start, k + 1));
            }
        } else {
            left = left - char_len(c);
        }
    }
    proof {
        lemma_suffix_fits(all, limit as nat);
        if kept@.len() == 0 {
            assert(all.skip(all.len() as int) =~= Seq::<char>::empty());
            assert(kept@ =~= suffix_within(all, limit as nat));
        } else {
            assert(kept@ =~= all.skip(all.len() - kept@.len()));
        }
    }
    kept
}

/// Every character but NUL.
pub open spec fn not_nul() -> spec_fn(char) -> bool {
    |c: char| c != '\0'
}

/// A text without its NUL characters.
pub open spec fn without_nul(text: Seq<char>) -> Seq<char> {
    text.filter(not_nul())
}

/// A text without its NUL characters.
pub fn strip_nul(text: &str) -> (r: String)
    ensures
        r@ == without_nul(text@),
{
    let mut kept: String = String::new();
    proof {
        reveal(Seq::filter);
        assert(text@.take(0).filter(not_nul()) =~= Seq::<char>::empty());
    }
    for c in it: text.chars()
        invariant
            it.seq() == text@,
            kept@ == text@.take(it.index() as int).filter(not_nul()),
    {
        proof {
            crate::list::lemma_filter_take(text@, not_nul(), it.index() as int);
        }
        if c != '\0' {
            kept.push(c);
        }
    }
    assert(text@.take(text@.len() as int) =~= text@);
    kept
}

/// The longest prefix of a text that has no more bytes than a limit.
pub fn truncate_within(text: &str, limit: usize) -> (r: String)
    ensures
        r@ == prefix_within(text@, limit as nat),
        byte_len(r@) <= limit,
{
    let mut kept: String = String::new();
    let mut bytes: usize = 0;
    let mut full: bool = false;
    proof {
        assert(encode_utf8(Seq::<char>::empty()) =~= Seq::<u8>::empty());
    }
    for c in it: text.chars()
        invariant
            it.seq() == text@,
            bytes == byte_len(kept@),
            bytes <= limit,
            kept@.len() <= it.index(),
            kept@ == text@.take(kept@.len() as int),
            !full ==> kept@.len() == it.index(),
            full ==> kept@.len() < text@.len() && byte_len(text@.take(kept@.len() as int + 1))
                > limit,
    {
        if !full {
            let width: usize = char_len(c);
            proof {
                lemma_encode_push(kept@, c);
                assert(text@.take(kept@.len() as int + 1) =~= kept@.push(c));
            }
            if width > limit - bytes {
                full = true;
            } else {
                kept.push(c);
                bytes = bytes + width;
            }
        }
    }
    proof {
        lemma_prefix_within(text@, limit as nat, kept@.len() as int);
    }
    kept
}

/// The first characters of a text, up to a number of them.
pub open spec fn head_of(text: Seq<char>, count: nat) -> Seq<char> {
    if text.len() <= count {
        text
    } else {
        text.take(count as int)
    }
}

/// The first characters of a text, up to a number of them.
pub fn first_chars(text: &str, count: usize) -> (r: String)
    ensures
        r@ == head_of(text@, count as nat),
{
    let mut kept: String = String::new();
    let mut room: usize = count;
    for c in it: text.chars()
        invariant
            it.seq() == text@,
            room <= count,
            kept@ == head_of(text@.take(it.index() as int), count as nat),
            room == (if it.index() <= count {
                count - it.index()
            } else {
                0
            }),
    {
        let ghost k = it.index() as int;
        proof {
            assert(text@.take(k + 1) =~= text@.take(k).push(c));
            assert(text@.take(k + 1).take(count as int) =~= text@.take(k).take(count as int)
                || k < count);
        }
        if room > 0 {
            kept.push(c);
            room = room - 1;
        }
        assert(kept@ =~= head_of(text@.take(k + 1), count as nat));
    }
    assert(text@.take(text@.len() as int) =~= text@);
    kept
}

/// Whether Unicode counts a character as white space.
pub open spec fn white_space(c: char) -> bool {
    let n = c as u32;
    9 <= n <= 13 || n == 0x20 || n == 0x85 || n == 0xa0 || n == 0x1680 || 0x2000 <= n <= 0x200a
        || n == 0x2028 || n == 0x2029 || n == 0x202f || n == 0x205f || n == 0x3000
}

/// Whether Unicode counts a character as white space.
fn is_white_space(c: char) -> (r: bool)
    ensures
        r == white_space(c),
{
    let n: u32 = c as u32;
    (9 <= n && n <= 13) || n == 0x20 || n == 0x85 || n == 0xa0 || n == 0x1680 || (0x2000 <= n && n
        <= 0x200a) || n == 0x2028 || n == 0x2029 || n == 0x202f || n == 0x205f || n == 0x3000
}

/// Whether a text holds white space only, or nothing.
pub open spec fn blank(text: Seq<char>) -> bool {
    forall|i: int| 0 <= i < text.len() ==> white_space(#[trigger] text[i])
}

/// Whether a text holds white space only, or nothing.
pub fn is_blank(text: &str) -> (r: bool)
    ensures
        r == blank(text@),
{
    let mut all: bool = true;
    for c in it: text.chars()
        invariant
            it.seq() == text@,
            all == forall|i: int| 0 <= i < it.index() ==> white_space(#[trigger] text@[i]),
    {
        let ghost k = it.index();
        assert(c == text@[k as int]);
        if !is_white_space(c) {
            assert(!white_space(text@[k as int]));
            all = false;
        }
    }
    all
}

/// Number of UTF-16 code units of a character.
pub open spec fn utf16_width(c: char) -> nat {
    if c as u32 >= 0x1_0000 {
        2
    } else {
        1
    }
}

/// Number of UTF-16 code units of a text.
pub open spec fn utf16_len(text: Seq<char>) -> nat
    decreases text.len(),
{
    if text.len() == 0 {
        0
    } else {
        utf16_len(text.drop_last()) + utf16_width(text.last())
    }
}

/// Number of UTF-16 code units of a text.
pub fn utf16_count(text: &str) -> (r: usize)
    ensures
        r == utf16_len(text@),
{
    let total: usize = text.as_bytes().len();
    let mut count: usize = 0;
    let ghost mut seen = Seq::<char>::empty();
    proof {
        assert(encode_utf8(Seq::<char>::empty()) =~= Seq::<u8>::empty());
    }
    for c in it: text.chars()
        invariant
            it.seq() == text@,
            total == byte_len(text@),
            seen == text@.take(it.index() as int),
            count == utf16_len(seen),
            count <= byte_len(seen),
    {
        let ghost k = it.index() as int;
        proof {
            assert(c == text@[k]);
            assert(text@.take(k + 1) =~= seen.push(c));
            assert(seen.push(c).drop_last() =~= seen);
            lemma_encode_push(seen, c);
            lemma_prefix_bytes(text@, k + 1, text@.len() as int);
            assert(text@.take(text@.len() as int) =~= text@);
        }
        let width: usize = if c as u32 >= 0x1_0000 {
            2
        } else {
            1
        };
        count = count + width;
        proof {
            seen = seen.push(c);
        }
    }
    assert(text@.take(text@.len() as int) =~= text@);
    count
}

/// Texts one after another, with a separator between them.
pub open spec fn joined(texts: Seq<Seq<char>>, separator: Seq<char>) -> Seq<char>
    decreases texts.len(),
{
    if texts.len() == 0 {
        Seq::empty()
    } else if texts.len() == 1 {
        texts[0]
    } else {
        joined(texts.drop_last(), separator) + separator + texts.last()
    }
}

/// Texts one after another, with a separator between them.
pub fn join_all(list: &Vec<String>, separator: &str) -> (r: String)
    ensures
        r@ == joined(Seq::new(list.len() as nat, |i: int| list[i]@), separator@),
{
    let ghost all = Seq::new(list.len() as nat, |i: int| list[i]@);
    let mut text: String = String::new();
    let mut i: usize = 0;
    assert(all.take(0) =~= Seq::<Seq<char>>::empty());
    while i < list.len()
        invariant
            i <= list.len(),
            all == Seq::new(list.len() as nat, |i: int| list[i]@),
            text@ == joined(all.take(i as int), separator@),
        decreases list.len() - i,
    {
        assert(all.take(i + 1).drop_last() =~= all.take(i as int));
        if i > 0 {
            text.append(separator);
        }
        let ghost before = text@;
        text.append(&list[i]);
        assert(i == 0 ==> text@ =~= list[i as int]@);
        i += 1;
    }
    assert(all.take(all.len() as int) =~= all);
    text
}

} // verus!
