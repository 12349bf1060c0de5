//! Characters and character sequences, as far as the opcode table and the
//! assembler read them.

use vstd::prelude::*;

verus! {

/// The characters of `text`, in order.
pub fn chars_of(text: &str) -> (chars: Vec<char>)
    ensures
        chars@ == text@,
{
    let mut chars: Vec<char> = Vec::new();
    for c in it: text.chars()
        invariant
            chars@ == it.seq().take(it.index() as int),
    {
        chars.push(c);
    }
    chars
}

/// The upper-case form of an ASCII letter; any other character is itself.
pub open spec fn upper(c: char) -> char {
    if 'a' <= c <= 'z' {
        ((c as int) - 32) as char
    } else {
        c
    }
}

/// `text` with each ASCII letter in upper case.
pub open spec fn uppercase(text: Seq<char>) -> Seq<char> {
    Seq::new(text.len(), |i: int| upper(text[i]))
}

/// The upper-case form of an ASCII letter; any other character is itself.
pub fn to_upper(c: char) -> (u: char)
    ensures
        u == upper(c),
{
    if 'a' <= c && c <= 'z' {
        ((c as u8) - 32) as char
    } else {
        c
    }
}

/// The value of a hexadecimal digit, in either case; `None` for any other
/// character.
pub open spec fn hex_value(c: char) -> Option<u8> {
    if '0' <= c <= '9' {
        Some(((c as int) - ('0' as int)) as u8)
    } else if 'a' <= c <= 'f' {
        Some(((c as int) - ('a' as int) + 10) as u8)
    } else if 'A' <= c <= 'F' {
        Some(((c as int) - ('A' as int) + 10) as u8)
    } else {
        None
    }
}

/// The value of a hexadecimal digit, in either case; `None` for any other
/// character.
pub fn hex_digit(c: char) -> (value: Option<u8>)
    ensures
        value == hex_value(c),
{
    if '0' <= c && c <= '9' {
        Some((c as u8) - ('0' as u8))
    } else if 'a' <= c && c <= 'f' {
        Some((c as u8) - ('a' as u8) + 10)
    } else if 'A' <= c && c <= 'F' {
        Some((c as u8) - ('A' as u8) + 10)
    } else {
        None
    }
}

/// Whether `c` is white space: one of the characters that Unicode gives the
/// property `White_Space`.
pub open spec fn is_whitespace(c: char) -> bool {
    let code = c as int;
    ||| 0x09 <= code <= 0x0D
    ||| code == 0x20
    ||| code == 0x85
    ||| code == 0xA0
    ||| code == 0x1680
    ||| 0x2000 <= code <= 0x200A
    ||| code == 0x2028
    ||| code == 0x2029
    ||| code == 0x202F
    ||| code == 0x205F
    ||| code == 0x3000
}

/// Whether `c` is white space.
pub fn is_space(c: char) -> (space: bool)
    ensures
        space == is_whitespace(c),
{
    let code = c as u32;
    (0x09 <= code && code <= 0x0D) || code == 0x20 || code == 0x85 || code == 0xA0 || code
        == 0x1680 || (0x2000 <= code && code <= 0x200A) || code == 0x2028 || code == 0x2029 || code
        == 0x202F || code == 0x205F || code == 0x3000
}

/// The number of characters of `text` that stand before the first `mark`;
/// the length of `text` where it holds no `mark`.
pub open spec fn prefix_before(text: Seq<char>, mark: char) -> nat
    decreases text.len(),
{
    if text.len() == 0 || text[0] == mark {
        0
    } else {
        1 + prefix_before(text.skip(1), mark)
    }
}

/// The number of white-space characters that `text` begins with.
pub open spec fn leading_space(text: Seq<char>) -> nat
    decreases text.len(),
{
    if text.len() == 0 || !is_whitespace(text[0]) {
        0
    } else {
        1 + leading_space(text.skip(1))
    }
}

/// The number of white-space characters that `text` ends with.
pub open spec fn trailing_space(text: Seq<char>) -> nat
    decreases text.len(),
{
    if text.len() == 0 || !is_whitespace(text.last()) {
        0
    } else {
        1 + trailing_space(text.drop_last())
    }
}

/// `text` without the white space at its start and at its end.
pub open spec fn trimmed(text: Seq<char>) -> Seq<char> {
    let rest = text.skip(leading_space(text) as int);
    rest.take(rest.len() - trailing_space(rest))
}

/// The prefix before a mark is no longer than the text, and where it is
/// shorter, the mark follows it.
pub proof fn lemma_prefix_before(text: Seq<char>, mark: char)
    ensures
        prefix_before(text, mark) <= text.len(),
        prefix_before(text, mark) < text.len() ==> text[prefix_before(text, mark) as int] == mark,
        forall|i: int| 0 <= i < prefix_before(text, mark) ==> text[i] != mark,
    decreases text.len(),
{
    if text.len() == 0 || text[0] == mark {
    } else {
        lemma_prefix_before(text.skip(1), mark);
        assert forall|i: int| 0 <= i < prefix_before(text, mark) implies text[i] != mark by {
            if i > 0 {
                assert(text.skip(1)[i - 1] == text[i]);
            }
        }
    }
}

/// The position of the first `mark` in `text` at or after `from`; the length
/// of `text` where none follows.
pub(crate) fn find(text: &[char], from: usize, mark: char) -> (at: usize)
    requires
        from <= text@.len(),
    ensures
        at == from + prefix_before(text@.skip(from as int), mark),
        from <= at <= text@.len(),
        at < text@.len() ==> text@[at as int] == mark,
        forall|i: int| from <= i < at ==> text@[i] != mark,
{
    proof {
        lemma_prefix_before(text@.skip(from as int), mark);
        let n = prefix_before(text@.skip(from as int), mark);
        assert forall|i: int| from <= i < from + n implies text@[i] != mark by {
            assert(text@.skip(from as int)[i - from] == text@[i]);
        }
    }
    let mut at = from;
    while at < text.len() && text[at] != mark
        invariant
            from <= at <= text@.len(),
            from + prefix_before(text@.skip(from as int), mark) == at + prefix_before(
                text@.skip(at as int),
                mark,
            ),
        decreases text@.len() - at,
    {
        assert(text@.skip(at as int)[0] == text@[at as int]);
        assert(text@.skip(at as int).skip(1) =~= text@.skip(at + 1));
        at += 1;
    }
    proof {
        if at < text@.len() {
            assert(text@.skip(at as int)[0] == text@[at as int]);
        }
    }
    at
}

/// `text` without the white space at its start and at its end.
pub fn trim(text: &[char]) -> (inner: &[char])
    ensures
        inner@ == trimmed(text@),
{
    let mut start: usize = 0;
    assert(text@.skip(0) =~= text@);
    while start < text.len() && is_space(text[start])
        invariant
            start <= text@.len(),
            leading_space(text@) == start + leading_space(text@.skip(start as int)),
        decreases text@.len() - start,
    {
        assert(text@.skip(start as int)[0] == text@[start as int]);
        assert(text@.skip(start as int).skip(1) =~= text@.skip(start + 1));
        start += 1;
    }
    proof {
        if start < text@.len() {
            assert(text@.skip(start as int)[0] == text@[start as int]);
        }
    }
    let ghost rest = text@.skip(start as int);
    let mut end: usize = text.len();
    assert(rest.take(text@.len() - start) =~= rest);
    while end > start && is_space(text[end - 1])
        invariant
            start <= end <= text@.len(),
            rest == text@.skip(start as int),
            trailing_space(rest) == (text@.len() - end) + trailing_space(
                rest.take(end - start),
            ),
        decreases end,
    {
        assert(rest.take(end - start).last() == text@[end - 1]);
        assert(rest.take(end - start).drop_last() =~= rest.take(end - start - 1));
        end -= 1;
    }
    proof {
        if end > start {
            assert(rest.take(end - start).last() == text@[end - 1]);
        }
        assert(text@.subrange(start as int, end as int) =~= rest.take(end - start));
    }
    vstd::slice::slice_subrange(text, start, end)
}

/// The hexadecimal digit, in upper case, for a value below 16.
pub open spec fn hex_char(value: u8) -> char {
    if value < 10 {
        (('0' as int) + value) as char
    } else {
        (('A' as int) + value - 10) as char
    }
}

/// A digit that was written for a value reads as that value.
pub proof fn lemma_hex_char_value(value: u8)
    requires
        value < 16,
    ensures
        hex_value(hex_char(value)) == Some(value),
        !is_whitespace(hex_char(value)),
{
}

/// Where `head` holds no `mark` and `tail` is empty or begins with one, the
/// prefix of `head + tail` before the first `mark` is `head`.
pub proof fn lemma_prefix_before_concat(head: Seq<char>, tail: Seq<char>, mark: char)
    requires
        forall|i: int| 0 <= i < head.len() ==> head[i] != mark,
        tail.len() == 0 || tail[0] == mark,
    ensures
        prefix_before(head + tail, mark) == head.len(),
    decreases head.len(),
{
    if head.len() == 0 {
        assert(head + tail =~= tail);
    } else {
        assert((head + tail)[0] == head[0]);
        assert((head + tail).skip(1) =~= head.skip(1) + tail);
        lemma_prefix_before_concat(head.skip(1), tail, mark);
    }
}

/// A text that neither begins nor ends with white space is its own trimmed
/// form.
pub proof fn lemma_trimmed_is_same(text: Seq<char>)
    requires
        text.len() > 0,
        !is_whitespace(text[0]),
        !is_whitespace(text.last()),
    ensures
        trimmed(text) == text,
{
    assert(text.skip(0) =~= text);
    assert(text.take(text.len() as int) =~= text);
}

} // verus!
