//! Recognition of a fenced script block inside raw message text.

use vstd::prelude::*;
use crate::text::chars_of;

verus! {

/// The characters that carry the Unicode property `White_Space`.
pub open spec fn is_white_space(c: char) -> bool {
    let n = c as u32;
    ||| 0x09 <= n <= 0x0D
    ||| n == 0x20
    ||| n == 0x85
    ||| n == 0xA0
    ||| n == 0x1680
    ||| 0x2000 <= n <= 0x200A
    ||| n == 0x2028
    ||| n == 0x2029
    ||| n == 0x202F
    ||| n == 0x205F
    ||| n == 0x3000
}

/// `s` without its leading white space.
pub open spec fn trim_start(s: Seq<char>) -> Seq<char>
    decreases s.len(),
{
    if s.len() > 0 && is_white_space(s.first()) {
        trim_start(s.drop_first())
    } else {
        s
    }
}

/// `s` without its trailing white space.
pub open spec fn trim_end(s: Seq<char>) -> Seq<char>
    decreases s.len(),
{
    if s.len() > 0 && is_white_space(s.last()) {
        trim_end(s.drop_last())
    } else {
        s
    }
}

/// `s` without white space at either end.
pub open spec fn trimmed(s: Seq<char>) -> Seq<char> {
    trim_end(trim_start(s))
}

/// The fence that opens a script block.
pub open spec fn fence_open() -> Seq<char> {
    seq!['`', '`', '`', 'n', 'e', 'o']
}

/// The fence that closes a script block.
pub open spec fn fence_close() -> Seq<char> {
    seq!['`', '`', '`']
}

/// The script source that `text` carries: what stands between the two fences
/// of the trimmed text, where it begins with the one and ends with the other.
pub open spec fn recognize(text: Seq<char>) -> Option<Seq<char>> {
    let t = trimmed(text);
    if fence_open().is_prefix_of(t) && fence_close().is_suffix_of(t) {
        Some(t.subrange(fence_open().len() as int, t.len() - fence_close().len()))
    } else {
        None
    }
}

/// A text that begins with the opening fence and ends with the closing one
/// holds both of them side by side: the two cannot overlap.
pub proof fn lemma_fences_do_not_overlap(t: Seq<char>)
    requires
        fence_open().is_prefix_of(t),
        fence_close().is_suffix_of(t),
    ensures
        t.len() >= fence_open().len() + fence_close().len(),
{
    let n = t.len() as int;
    assert(t.subrange(0, 6) == fence_open());
    assert(t.subrange(n - 3, n) == fence_close());
    assert(t[3] == t.subrange(0, 6)[3]);
    assert(t[4] == t.subrange(0, 6)[4]);
    assert(t[5] == t.subrange(0, 6)[5]);
    if n < 9 {
        assert(t[n - 3] == t.subrange(n - 3, n)[0]);
        assert(t[n - 2] == t.subrange(n - 3, n)[1]);
        assert(t[n - 1] == t.subrange(n - 3, n)[2]);
    }
}

/// Trimming the start drops exactly the white space before position `a`.
proof fn lemma_trim_start_is_suffix(s: Seq<char>, a: int)
    requires
        0 <= a <= s.len(),
        forall|i: int| 0 <= i < a ==> is_white_space(#[trigger] s[i]),
        a < s.len() ==> !is_white_space(s[a]),
    ensures
        trim_start(s) == s.subrange(a, s.len() as int),
    decreases a,
{
    if a == 0 {
        assert(s.subrange(0, s.len() as int) == s);
    } else {
        let rest = s.drop_first();
        assert forall|i: int| 0 <= i < a - 1 implies is_white_space(#[trigger] rest[i]) by {
            assert(rest[i] == s[i + 1]);
        }
        lemma_trim_start_is_suffix(rest, a - 1);
        assert(rest.subrange(a - 1, rest.len() as int) == s.subrange(a, s.len() as int));
    }
}

/// Trimming the end drops exactly the white space from position `b` on.
proof fn lemma_trim_end_is_prefix(s: Seq<char>, b: int)
    requires
        0 <= b <= s.len(),
        forall|i: int| b <= i < s.len() ==> is_white_space(#[trigger] s[i]),
        b > 0 ==> !is_white_space(s[b - 1]),
    ensures
        trim_end(s) == s.subrange(0, b),
    decreases s.len() - b,
{
    if b == s.len() {
        assert(s.subrange(0, b) == s);
    } else {
        let rest = s.drop_last();
        assert forall|i: int| b <= i < rest.len() implies is_white_space(#[trigger] rest[i]) by {
            assert(rest[i] == s[i]);
        }
        lemma_trim_end_is_prefix(rest, b);
        assert(rest.subrange(0, b) == s.subrange(0, b));
    }
}

/// Tells whether `c` is white space.
pub fn is_whitespace(c: char) -> (b: bool)
    ensures
        b == is_white_space(c),
{
    let n: u32 = c as u32;
    (0x09 <= n && n <= 0x0D) || n == 0x20 || n == 0x85 || n == 0xA0 || n == 0x1680 || (0x2000 <= n
        && n <= 0x200A) || n == 0x2028 || n == 0x2029 || n == 0x202F || n == 0x205F || n == 0x3000
}

/// Recognizes a script block in a message body. The body is trimmed; it holds
/// a block where it then starts with the fence `` ```neo `` and ends with the
/// fence `` ``` ``. The result is the text between the two, as it stands.
pub fn parse_neo_block(msg: &str) -> (code: Option<&str>)
    ensures
        code is Some <==> recognize(msg@) is Some,
        code matches Some(c) ==> recognize(msg@) == Some(c@),
{
    let chars = chars_of(msg);
    let n = chars.len();
    let mut start: usize = 0;
    while start < n && is_whitespace(chars[start])
        invariant
            start <= n == chars.len(),
            forall|i: int| 0 <= i < start ==> is_white_space(#[trigger] chars@[i]),
        decreases n - start,
    {
        start += 1;
    }
    let mut end: usize = n;
    while end > start && is_whitespace(chars[end - 1])
        invariant
            start <= end <= n == chars.len(),
            forall|i: int| end <= i < n ==> is_white_space(#[trigger] chars@[i]),
        decreases end,
    {
        end -= 1;
    }
    let ghost t = chars@.subrange(start as int, end as int);
    proof {
        let tail = chars@.subrange(start as int, n as int);
        lemma_trim_start_is_suffix(chars@, start as int);
        assert(trim_start(msg@) == tail);
        assert forall|i: int| end - start <= i < tail.len() implies is_white_space(
            #[trigger] tail[i],
        ) by {
            assert(tail[i] == chars@[i + start]);
        }
        if end > start {
            assert(tail[end - start - 1] == chars@[end - 1]);
        }
        lemma_trim_end_is_prefix(tail, end - start);
        assert(tail.subrange(0, end - start) == t);
        assert(trimmed(msg@) == t);
        if fence_open().is_prefix_of(t) && fence_close().is_suffix_of(t) {
            lemma_fences_do_not_overlap(t);
        }
    }
    if end - start < 9 {
        return None;
    }
    let opens = chars[start] == '`' && chars[start + 1] == '`' && chars[start + 2] == '`'
        && chars[start + 3] == 'n' && chars[start + 4] == 'e' && chars[start + 5] == 'o';
    let closes = chars[end - 3] == '`' && chars[end - 2] == '`' && chars[end - 1] == '`';
    proof {
        if opens {
            assert(t.subrange(0, 6) == fence_open());
        } else {
            if fence_open().is_prefix_of(t) {
                assert(t.subrange(0, 6) == fence_open());
                assert(forall|i: int| 0 <= i < 6 ==> t[i] == #[trigger] t.subrange(0, 6)[i]);
            }
        }
        if closes {
            assert(t.subrange(t.len() - 3, t.len() as int) == fence_close());
        } else {
            if fence_close().is_suffix_of(t) {
                let tl = t.len() as int;
                assert(t.subrange(tl - 3, tl) == fence_close());
                assert(forall|i: int|
                    0 <= i < 3 ==> t[tl - 3 + i] == #[trigger] t.subrange(tl - 3, tl)[i]);
            }
        }
    }
    if opens && closes {
        let code = msg.substring_char(start + 6, end - 3);
        proof {
            assert(code@ == t.subrange(6, t.len() - 3));
        }
        Some(code)
    } else {
        None
    }
}

} // verus!
