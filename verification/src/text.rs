//! Text as sequences of characters: decimal numerals, prefixes, and the
//! rendering of the values that scripts turn into strings.

use vstd::prelude::*;
use vstd::std_specs::iter::IteratorSpec;
use vstd::string::StringSliceAdditionalSpecFns;

verus! {

/// The characters of `s`, one by one.
pub fn chars_of(s: &str) -> (v: Vec<char>)
    ensures
        v@ == s@,
{
    let mut it = s.chars();
    let mut v: Vec<char> = Vec::new();
    loop
        invariant
            v@ + it.remaining() == s@,
            it.decrease() is Some,
        ensures
            v@ == s@,
        decreases it.decrease()->0,
    {
        match it.next() {
            Some(c) => {
                v.push(c);
            },
            None => {
                break ;
            },
        }
    }
    v
}

/// Whether `part` stands in `text` at position `at`.
pub open spec fn stands_at(text: Seq<char>, part: Seq<char>, at: int) -> bool {
    0 <= at && at + part.len() <= text.len() && text.subrange(at, at + part.len()) == part
}

/// Whether `part` stands somewhere in `text`.
pub open spec fn occurs_in(part: Seq<char>, text: Seq<char>) -> bool {
    exists|at: int| stands_at(text, part, at)
}

/// Tells whether `part` stands in `text` at position `at`.
pub fn matches_at(text: &Vec<char>, part: &Vec<char>, at: usize) -> (b: bool)
    ensures
        b == stands_at(text@, part@, at as int),
{
    if part.len() > text.len() || at > text.len() - part.len() {
        return false;
    }
    let mut i: usize = 0;
    while i < part.len()
        invariant
            i <= part.len(),
            at + part.len() <= text.len(),
            forall|j: int| 0 <= j < i ==> text@[at + j] == part@[j],
        decreases part.len() - i,
    {
        if text[at + i] != part[i] {
            proof {
                if stands_at(text@, part@, at as int) {
                    assert(text@.subrange(at as int, at + part.len())[i as int] == part@[i as int]);
                }
            }
            return false;
        }
        i += 1;
    }
    assert(text@.subrange(at as int, at + part.len()) =~= part@);
    true
}

/// Tells whether `text` begins with `prefix`.
pub fn starts_with(text: String, prefix: String) -> (b: bool)
    ensures
        b == prefix@.is_prefix_of(text@),
{
    let text_chars = chars_of(text.as_str());
    let prefix_chars = chars_of(prefix.as_str());
    matches_at(&text_chars, &prefix_chars, 0)
}

/// Tells whether `part` stands somewhere in `text`.
pub fn contains(text: String, part: String) -> (b: bool)
    ensures
        b == occurs_in(part@, text@),
{
    let text_chars = chars_of(text.as_str());
    let part_chars = chars_of(part.as_str());
    if part_chars.len() > text_chars.len() {
        return false;
    }
    let last = text_chars.len() - part_chars.len();
    let mut at: usize = 0;
    loop
        invariant
            at <= last,
            last == text_chars.len() - part_chars.len(),
            text_chars@ == text@,
            part_chars@ == part@,
            forall|j: int| 0 <= j < at ==> !stands_at(text@, part@, j),
        decreases last - at,
    {
        if matches_at(&text_chars, &part_chars, at) {
            return true;
        }
        if at == last {
            return false;
        }
        at += 1;
    }
}

/// The number of bytes that `text` takes in UTF-8, as a script counts them;
/// a count beyond the largest integer of a script is that integer.
pub open spec fn byte_length(text: Seq<char>) -> int {
    let n = vstd::utf8::encode_utf8(text).len() as int;
    if n <= i64::MAX {
        n
    } else {
        i64::MAX as int
    }
}

/// The length of `text` in bytes.
pub fn length(text: &String) -> (n: i64)
    ensures
        n == byte_length(text@),
{
    let n: u64 = text.as_str().as_bytes().len() as u64;
    if n <= 0x7fff_ffff_ffff_ffff {
        n as i64
    } else {
        i64::MAX
    }
}

/// Whether the bytes of `text` from `start` up to `end` are a text of their
/// own: both positions lie within the text, in order, and neither lies
/// inside a character.
pub open spec fn cuts(text: Seq<char>, start: int, end: int) -> bool {
    let bytes = vstd::utf8::encode_utf8(text);
    &&& 0 <= start <= end <= bytes.len()
    &&& vstd::utf8::is_char_boundary(bytes, start)
    &&& vstd::utf8::is_char_boundary(bytes, end)
}

/// The part of `text` from byte `start` up to byte `end`, where the two
/// positions cut a text out of it.
pub fn substring(text: &String, start: i64, end: i64) -> (part: Option<String>)
    ensures
        part is Some <==> cuts(text@, start as int, end as int),
        part matches Some(p) ==> vstd::utf8::encode_utf8(p@) == vstd::utf8::encode_utf8(
            text@,
        ).subrange(start as int, end as int),
{
    let whole = text.as_str();
    let ghost bytes = vstd::utf8::encode_utf8(text@);
    if start < 0 || end < start {
        return None;
    }
    if end as u64 > whole.as_bytes().len() as u64 {
        return None;
    }
    let a = start as usize;
    let b = end as usize;
    if !whole.is_char_boundary(a) || !whole.is_char_boundary(b) {
        return None;
    }
    proof {
        vstd::utf8::encode_utf8_valid_utf8(text@);
        vstd::utf8::valid_utf8_split(bytes, b as int);
        let head = bytes.subrange(0, b as int);
        if a < b {
            vstd::utf8::is_char_boundary_iff_not_is_continuation_byte(bytes, a as int);
            vstd::utf8::is_char_boundary_iff_not_is_continuation_byte(head, a as int);
        } else {
            vstd::utf8::is_char_boundary_start_end_of_seq(head);
        }
    }
    let (head, _) = whole.split_at(b);
    let (_, part) = head.split_at(a);
    assert(part.spec_bytes() =~= bytes.subrange(a as int, b as int));
    Some(part.to_owned())
}

/// `text` with every letter in upper case.
pub uninterp spec fn uppercase_of(text: Seq<char>) -> Seq<char>;

/// `text` with every letter in lower case.
pub uninterp spec fn lowercase_of(text: Seq<char>) -> Seq<char>;

/// `str::to_uppercase`: the text with each character replaced by its upper
/// case, as Unicode defines it. The result depends on the text alone.
#[verifier::external_body]
pub(crate) fn uppercase(text: &String) -> (upper: String)
    ensures
        upper@ == uppercase_of(text@),
{
    text.to_uppercase()
}

/// `str::to_lowercase`: the text with each character replaced by its lower
/// case, as Unicode defines it. The result depends on the text alone.
#[verifier::external_body]
pub(crate) fn lowercase(text: &String) -> (lower: String)
    ensures
        lower@ == lowercase_of(text@),
{
    text.to_lowercase()
}

/// The character that stands for the digit `d`.
pub open spec fn digit_char(d: nat) -> char
    recommends
        d < 10,
{
    if d == 0 {
        '0'
    } else if d == 1 {
        '1'
    } else if d == 2 {
        '2'
    } else if d == 3 {
        '3'
    } else if d == 4 {
        '4'
    } else if d == 5 {
        '5'
    } else if d == 6 {
        '6'
    } else if d == 7 {
        '7'
    } else if d == 8 {
        '8'
    } else {
        '9'
    }
}

/// The decimal numeral of `n`, without leading zeros.
pub open spec fn decimal(n: nat) -> Seq<char>
    decreases n,
{
    if n < 10 {
        seq![digit_char(n)]
    } else {
        decimal(n / 10).push(digit_char(n % 10))
    }
}

/// The decimal numeral of `v`, with a minus sign where `v` is negative.
pub open spec fn signed_decimal(v: int) -> Seq<char> {
    if v < 0 {
        seq!['-'] + decimal((-v) as nat)
    } else {
        decimal(v as nat)
    }
}

/// The text of one digit.
fn digit_text(d: u64) -> (text: &'static str)
    requires
        d < 10,
    ensures
        text@ == seq![digit_char(d as nat)],
{
    proof {
        reveal_strlit("0");
        reveal_strlit("1");
        reveal_strlit("2");
        reveal_strlit("3");
        reveal_strlit("4");
        reveal_strlit("5");
        reveal_strlit("6");
        reveal_strlit("7");
        reveal_strlit("8");
        reveal_strlit("9");
    }
    let text = if d == 0 {
        "0"
    } else if d == 1 {
        "1"
    } else if d == 2 {
        "2"
    } else if d == 3 {
        "3"
    } else if d == 4 {
        "4"
    } else if d == 5 {
        "5"
    } else if d == 6 {
        "6"
    } else if d == 7 {
        "7"
    } else if d == 8 {
        "8"
    } else {
        "9"
    };
    assert(text@ =~= seq![digit_char(d as nat)]);
    text
}

/// Writes the decimal numeral of `n` at the end of `out`.
pub fn push_decimal(out: &mut String, n: u64)
    ensures
        final(out)@ == old(out)@ + decimal(n as nat),
    decreases n,
{
    if n >= 10 {
        push_decimal(out, n / 10);
    }
    out.append(digit_text(n % 10));
    proof {
        if n >= 10 {
            assert(old(out)@ + decimal(n as nat / 10).push(digit_char(n as nat % 10)) =~= old(
                out,
            )@ + decimal(n as nat / 10) + seq![digit_char(n as nat % 10)]);
        }
    }
}

/// A value that a script can turn into a string.
pub trait Stringify {
    /// The text that stands for the value.
    spec fn text(&self) -> Seq<char>;

    /// The text that stands for the value.
    fn stringify(&self) -> (s: String)
        ensures
            s@ == self.text(),
    ;
}

impl Stringify for i64 {
    open spec fn text(&self) -> Seq<char> {
        signed_decimal(*self as int)
    }

    fn stringify(&self) -> (s: String) {
        let v = *self;
        let mut s = String::new();
        if v < 0 {
            proof {
                reveal_strlit("-");
            }
            s.append("-");
            let magnitude: u64 = (-(v + 1)) as u64 + 1;
            push_decimal(&mut s, magnitude);
            assert(s@ =~= seq!['-'] + decimal((-v) as nat));
        } else {
            push_decimal(&mut s, v as u64);
            assert(s@ =~= decimal(v as nat));
        }
        s
    }
}

impl Stringify for bool {
    open spec fn text(&self) -> Seq<char> {
        if *self {
            seq!['t', 'r', 'u', 'e']
        } else {
            seq!['f', 'a', 'l', 's', 'e']
        }
    }

    fn stringify(&self) -> (s: String) {
        proof {
            reveal_strlit("true");
            reveal_strlit("false");
        }
        if *self {
            let s = "true".to_owned();
            assert(s@ =~= seq!['t', 'r', 'u', 'e']);
            s
        } else {
            let s = "false".to_owned();
            assert(s@ =~= seq!['f', 'a', 'l', 's', 'e']);
            s
        }
    }
}

/// The string that a script gets for `value`: the decimal numeral of an
/// integer, `true` or `false` for a truth value.
pub fn to_str<T: Stringify>(value: T) -> (s: String)
    ensures
        s@ == value.text(),
{
    value.stringify()
}

} // verus!
