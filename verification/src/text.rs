//! Text primitives shared by every prompt grammar: the mathematical meaning of
//! trimming, and the executable operations on strings that realise it.

use vstd::prelude::*;
use vstd::utf8::{
    decode_utf8, decode_utf8_encode_utf8, decode_utf8_split, encode_utf8, encode_utf8_decode_utf8,
    encode_utf8_valid_utf8, is_char_boundary, is_char_boundary_iff_not_is_continuation_byte,
    is_char_boundary_start_end_of_seq, valid_utf8_split,
};

verus! {

/// Whether `c` carries the Unicode `White_Space` property.
pub open spec fn is_white_space(c: char) -> bool {
    let n = c as u32;
    ||| 0x09 <= n <= 0x0D
    ||| n == 0x20
    ||| n == 0x85
    ||| n == 0xA0
    ||| n == 0x1680
    ||| 0x2000 <= n <= 0x200A
    ||| n == 0x2028
    ||| n == 0x2029
    ||| n == 0x202F
    ||| n == 0x205F
    ||| n == 0x3000
}

/// `s` without its leading white space.
pub open spec fn trim_start_spec(s: Seq<char>) -> Seq<char>
    decreases s.len(),
{
    if s.len() > 0 && is_white_space(s[0]) {
        trim_start_spec(s.drop_first())
    } else {
        s
    }
}

/// `s` without its trailing white space.
pub open spec fn trim_end_spec(s: Seq<char>) -> Seq<char>
    decreases s.len(),
{
    if s.len() > 0 && is_white_space(s.last()) {
        trim_end_spec(s.drop_last())
    } else {
        s
    }
}

/// `s` without its leading and trailing white space.
pub open spec fn trim_spec(s: Seq<char>) -> Seq<char> {
    trim_end_spec(trim_start_spec(s))
}

/// Whether `s` is not empty and neither begins nor ends with white space.
pub open spec fn is_clean(s: Seq<char>) -> bool {
    s.len() > 0 && !is_white_space(s[0]) && !is_white_space(s.last())
}

/// Trimming the start leaves a suffix of the text that is empty or begins
/// with a character that is not white space.
pub proof fn lemma_trim_start(s: Seq<char>)
    ensures
        trim_start_spec(s).len() <= s.len(),
        trim_start_spec(s) == s.subrange(s.len() - trim_start_spec(s).len(), s.len() as int),
        trim_start_spec(s).len() > 0 ==> !is_white_space(trim_start_spec(s)[0]),
        forall|i: int| 0 <= i < s.len() - trim_start_spec(s).len() ==> is_white_space(s[i]),
    decreases s.len(),
{
    if s.len() > 0 && is_white_space(s[0]) {
        let rest = s.drop_first();
        lemma_trim_start(rest);
        let t = trim_start_spec(rest);
        assert(t == s.subrange(s.len() - t.len(), s.len() as int));
        assert forall|i: int| 0 <= i < s.len() - t.len() implies is_white_space(s[i]) by {
            if i > 0 {
                assert(s[i] == rest[i - 1]);
            }
        }
    } else {
        assert(s == s.subrange(0, s.len() as int));
    }
}

/// Trimming the end leaves a prefix of the text that is empty or ends with a
/// character that is not white space.
pub proof fn lemma_trim_end(s: Seq<char>)
    ensures
        trim_end_spec(s).len() <= s.len(),
        trim_end_spec(s) == s.subrange(0, trim_end_spec(s).len() as int),
        trim_end_spec(s).len() > 0 ==> !is_white_space(trim_end_spec(s).last()),
        forall|i: int| trim_end_spec(s).len() <= i < s.len() ==> is_white_space(s[i]),
    decreases s.len(),
{
    if s.len() > 0 && is_white_space(s.last()) {
        let rest = s.drop_last();
        lemma_trim_end(rest);
        let t = trim_end_spec(rest);
        assert(t == s.subrange(0, t.len() as int));
        assert forall|i: int| t.len() <= i < s.len() implies is_white_space(s[i]) by {
            if i < s.len() - 1 {
                assert(s[i] == rest[i]);
            }
        }
    } else {
        assert(s == s.subrange(0, s.len() as int));
    }
}

/// A trimmed text is empty or clean.
pub proof fn lemma_trim_is_clean(s: Seq<char>)
    ensures
        trim_spec(s).len() == 0 || is_clean(trim_spec(s)),
{
    let t = trim_start_spec(s);
    lemma_trim_start(s);
    lemma_trim_end(t);
    let u = trim_end_spec(t);
    if u.len() > 0 {
        assert(u[0] == t[0]);
    }
}

/// Trimming leaves a clean text as it is.
pub proof fn lemma_trim_keeps_clean(s: Seq<char>)
    requires
        is_clean(s),
    ensures
        trim_spec(s) == s,
{
}

/// A text that holds a character other than white space does not trim to
/// nothing.
pub proof fn lemma_trim_keeps_content(s: Seq<char>, i: int)
    requires
        0 <= i < s.len(),
        !is_white_space(s[i]),
    ensures
        trim_spec(s).len() > 0,
{
    let t = trim_start_spec(s);
    lemma_trim_start(s);
    lemma_trim_end(t);
    let cut = s.len() - t.len();
    // the character at `i` survives the first cut
    assert(cut <= i);
    assert(t[i - cut] == s[i]);
    // and the second
    assert(trim_end_spec(t).len() > i - cut);
}

/// Whether `needle` stands in `hay` at the position `at`.
pub open spec fn occurs_at(hay: Seq<char>, needle: Seq<char>, at: int) -> bool {
    0 <= at && at + needle.len() <= hay.len() && hay.subrange(at, at + needle.len()) == needle
}

/// Whether `hay` ends with `tail`.
pub open spec fn ends_with(hay: Seq<char>, tail: Seq<char>) -> bool {
    tail.len() <= hay.len() && hay.subrange(hay.len() - tail.len(), hay.len() as int) == tail
}

/// Whether `needle` stands somewhere in `hay`.
pub open spec fn contains(hay: Seq<char>, needle: Seq<char>) -> bool {
    exists|at: int| occurs_at(hay, needle, at)
}

/// A text stands in whatever is written around it.
pub proof fn lemma_contains_middle(before: Seq<char>, needle: Seq<char>, after: Seq<char>)
    ensures
        contains(before + needle + after, needle),
{
    let all = before + needle + after;
    assert(all.subrange(before.len() as int, (before.len() + needle.len()) as int) == needle);
    assert(occurs_at(all, needle, before.len() as int));
}

/// What stands in a text stands in whatever is written around that text.
pub proof fn lemma_contains_within(
    before: Seq<char>,
    hay: Seq<char>,
    after: Seq<char>,
    needle: Seq<char>,
)
    requires
        contains(hay, needle),
    ensures
        contains(before + hay + after, needle),
{
    let at = choose|at: int| occurs_at(hay, needle, at);
    let all = before + hay + after;
    assert(all.subrange(before.len() + at, before.len() + at + needle.len()) == hay.subrange(
        at,
        at + needle.len(),
    ));
    assert(occurs_at(all, needle, before.len() + at));
}

/// Calls `str::trim`. Trusted: the slice returned holds the characters of `s`
/// with the leading and the trailing run of `White_Space` characters removed.
#[verifier::external_body]
pub(crate) fn trim(s: &str) -> (r: &str)
    ensures
        r@ == trim_spec(s@),
{
    s.trim()
}

/// Whether the byte offset `at` falls between two characters of `text`, or at
/// one of its ends.
pub open spec fn splits_at(text: Seq<char>, at: int) -> bool {
    is_char_boundary(encode_utf8(text), at)
}

/// The characters of `text` that its first `at` bytes encode.
pub open spec fn text_before(text: Seq<char>, at: int) -> Seq<char> {
    decode_utf8(encode_utf8(text).subrange(0, at))
}

/// The characters of `text` that its bytes from offset `at` on encode.
pub open spec fn text_from(text: Seq<char>, at: int) -> Seq<char> {
    decode_utf8(encode_utf8(text).subrange(at, encode_utf8(text).len() as int))
}

/// The characters of `text` that its bytes from offset `start` up to offset
/// `end` encode.
pub open spec fn text_between(text: Seq<char>, start: int, end: int) -> Seq<char> {
    decode_utf8(encode_utf8(text).subrange(start, end))
}

/// Splits `s` at the byte offset `at` into owned halves.
pub fn split_text(s: &str, at: usize) -> (r: (String, String))
    requires
        splits_at(s@, at as int),
    ensures
        r.0@ == text_before(s@, at as int),
        r.1@ == text_from(s@, at as int),
{
    let (head, tail) = s.split_at(at);
    proof {
        encode_utf8_decode_utf8(head@);
        encode_utf8_decode_utf8(tail@);
    }
    (String::from_str(head), String::from_str(tail))
}

/// A text cut at two character boundaries is made of three parts: what
/// stands before the first, between the two, and from the second on.
pub proof fn lemma_cut_is_whole(text: Seq<char>, start: int, end: int)
    requires
        splits_at(text, start),
        splits_at(text, end),
        0 <= start <= end,
    ensures
        text == text_before(text, start) + text_between(text, start, end) + text_from(text, end),
{
    let bytes = encode_utf8(text);
    encode_utf8_valid_utf8(text);
    encode_utf8_decode_utf8(text);
    assert(end <= bytes.len());
    decode_utf8_split(bytes, end);
    let head = bytes.subrange(0, end);
    valid_utf8_split(bytes, end);
    if start == 0 || start == head.len() {
        is_char_boundary_start_end_of_seq(head);
    } else {
        is_char_boundary_iff_not_is_continuation_byte(bytes, start);
        assert(head[start] == bytes[start]);
        is_char_boundary_iff_not_is_continuation_byte(head, start);
    }
    decode_utf8_split(head, start);
    assert(head.subrange(0, start) == bytes.subrange(0, start));
    assert(head.subrange(start, head.len() as int) == bytes.subrange(start, end));
}

/// What stands in a part of a text stands in the text.
pub proof fn lemma_part_holds_no_more(
    before: Seq<char>,
    part: Seq<char>,
    after: Seq<char>,
    needle: Seq<char>,
)
    requires
        !contains(before + part + after, needle),
    ensures
        !contains(part, needle),
{
    if contains(part, needle) {
        lemma_contains_within(before, part, after, needle);
    }
}

/// Cuts `s` at the byte offsets `start` and `end`: what stands before
/// `start`, and what stands between the two.
pub fn cut_text(s: &str, start: usize, end: usize) -> (r: (String, String))
    requires
        splits_at(s@, start as int),
        splits_at(s@, end as int),
        start <= end,
    ensures
        r.0@ == text_before(s@, start as int),
        r.1@ == text_between(s@, start as int, end as int),
{
    let (head, rest) = split_text(s, start);
    proof {
        let bytes = encode_utf8(s@);
        encode_utf8_valid_utf8(s@);
        assert(end <= bytes.len());
        let tail = bytes.subrange(start as int, bytes.len() as int);
        valid_utf8_split(bytes, start as int);
        decode_utf8_encode_utf8(tail);
        assert(encode_utf8(rest@) == tail);
        let at = end - start;
        if at == 0 || at == tail.len() {
            is_char_boundary_start_end_of_seq(tail);
        } else {
            is_char_boundary_iff_not_is_continuation_byte(bytes, end as int);
            assert(tail[at] == bytes[end as int]);
            is_char_boundary_iff_not_is_continuation_byte(tail, at);
        }
        assert(tail.subrange(0, at) == bytes.subrange(start as int, end as int));
    }
    let (block, _) = split_text(rest.as_str(), end - start);
    (head, block)
}

/// Appends `piece` to `acc`.
pub fn push(acc: &mut String, piece: &str)
    ensures
        final(acc)@ == old(acc)@ + piece@,
{
    acc.append(piece);
}

} // verus!
