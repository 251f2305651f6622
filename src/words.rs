//! Small text functions: the first word of a string, the longer of two
//! strings, the last character of the first line, a greeting.
use vstd::prelude::*;
use vstd::utf8::encode_utf8;

verus! {

/// The byte of an ASCII space.
pub const SPACE: u8 = 32;

/// The index of the first space byte in `b`, or its length if it holds none.
pub open spec fn first_space_byte(b: Seq<u8>) -> int
    decreases b.len(),
{
    if b.len() == 0 {
        0
    } else if b[0] == SPACE {
        0
    } else {
        1 + first_space_byte(b.drop_first())
    }
}

/// The index of the first space character in `s`, or its length if it holds
/// none.
pub open spec fn first_space(s: Seq<char>) -> int
    decreases s.len(),
{
    if s.len() == 0 {
        0
    } else if s[0] == ' ' {
        0
    } else {
        1 + first_space(s.drop_first())
    }
}

proof fn lemma_first_space_byte_at(b: Seq<u8>, i: int)
    requires
        0 <= i <= b.len(),
        forall|j: int| 0 <= j < i ==> b[j] != SPACE,
        i == b.len() || b[i] == SPACE,
    ensures
        first_space_byte(b) == i,
    decreases i,
{
    if i > 0 {
        lemma_first_space_byte_at(b.drop_first(), i - 1);
    }
}

proof fn lemma_first_space_at(s: Seq<char>, i: int)
    requires
        0 <= i <= s.len(),
        forall|j: int| 0 <= j < i ==> s[j] != ' ',
        i == s.len() || s[i] == ' ',
    ensures
        first_space(s) == i,
    decreases i,
{
    if i > 0 {
        lemma_first_space_at(s.drop_first(), i - 1);
    }
}

/// The byte index at which the first word of `s` ends: that of its first
/// space, or the length of `s` in bytes.
pub fn first_word(s: &String) -> (r: usize)
    ensures
        r == first_space_byte(encode_utf8(s@)),
        r <= encode_utf8(s@).len(),
{
    let bytes = s.as_str().as_bytes();
    let mut i: usize = 0;
    while i < bytes.len()
        invariant
            i <= bytes@.len(),
            bytes@ == encode_utf8(s@),
            forall|j: int| 0 <= j < i ==> bytes@[j] != SPACE,
        decreases bytes@.len() - i,
    {
        if bytes[i] == SPACE {
            proof {
                lemma_first_space_byte_at(bytes@, i as int);
            }
            return i;
        }
        i = i + 1;
    }
    proof {
        lemma_first_space_byte_at(bytes@, i as int);
    }
    s.as_str().len()
}

/// The first word of `s`: everything before its first space, or all of it.
pub fn proper_first_word(s: &String) -> (r: &str)
    ensures
        r@ == s@.take(first_space(s@)),
{
    let text = s.as_str();
    let n = text.unicode_len();
    let mut i: usize = 0;
    while i < n
        invariant
            i <= n,
            n == text@.len(),
            text@ == s@,
            forall|j: int| 0 <= j < i ==> text@[j] != ' ',
        decreases n - i,
    {
        if text.get_char(i) == ' ' {
            proof {
                lemma_first_space_at(s@, i as int);
            }
            return text.substring_char(0, i);
        }
        i = i + 1;
    }
    proof {
        lemma_first_space_at(s@, i as int);
    }
    text.substring_char(0, n)
}

/// The longer of `x` and `y` by their length in bytes; `y` when they are
/// equally long.
pub fn longest<'a>(x: &'a str, y: &'a str) -> (r: &'a str)
    ensures
        r@ == if x.len() > y.len() {
            x@
        } else {
            y@
        },
{
    if x.len() > y.len() {
        x
    } else {
        y
    }
}

/// The index of the first line feed in `t` at or after `i`, or the length
/// of `t` if there is none.
pub open spec fn line_end(t: Seq<char>, i: int) -> int
    decreases t.len() - i,
{
    if i < 0 || i >= t.len() || t[i] == '\n' {
        i
    } else {
        line_end(t, i + 1)
    }
}

/// The first line of `t`, without its line ending: text before the first
/// line feed, and without a carriage return right before that line feed.
pub open spec fn first_line(t: Seq<char>) -> Seq<char> {
    let e = line_end(t, 0);
    if e < t.len() && e > 0 && t[e - 1] == '\r' {
        t.take(e - 1)
    } else {
        t.take(e)
    }
}

/// The last character of the first line of `t`; none when `t` is empty or
/// its first line is.
pub open spec fn last_of_first_line(t: Seq<char>) -> Option<char> {
    if t.len() == 0 || first_line(t).len() == 0 {
        None
    } else {
        Some(first_line(t).last())
    }
}

/// The last character of the first line of `text`, if there is one.
pub fn last_char_of_first_line(text: &str) -> (r: Option<char>)
    ensures
        r == last_of_first_line(text@),
{
    let n = text.unicode_len();
    if n == 0 {
        return None;
    }
    let mut i: usize = 0;
    while i < n && text.get_char(i) != '\n'
        invariant
            i <= n,
            n == text@.len(),
            line_end(text@, 0) == line_end(text@, i as int),
        decreases n - i,
    {
        i = i + 1;
    }
    let mut end = i;
    if i < n && i > 0 && text.get_char(i - 1) == '\r' {
        end = i - 1;
    }
    if end == 0 {
        None
    } else {
        Some(text.get_char(end - 1))
    }
}

/// A greeting for `name`.
pub fn greeting(name: &str) -> (r: String)
    ensures
        r@ == "Hello "@ + name@ + "!"@,
{
    let mut r = String::from_str("Hello ");
    r.append(name);
    r.append("!");
    r
}

/// "foo" with "bar" appended.
pub fn updating_string() -> (r: String)
    ensures
        r@ == "foobar"@,
{
    let mut s1 = String::from_str("foo");
    let s2 = "bar";
    s1.append(s2);
    proof {
        reveal_strlit("foo");
        reveal_strlit("bar");
        reveal_strlit("foobar");
    }
    assert(s1@ =~= "foobar"@);
    s1
}

/// "Hello, " followed by "world!".
pub fn string_concatenation() -> (r: String)
    ensures
        r@ == "Hello, world!"@,
{
    let s1 = String::from_str("Hello, ");
    let s2 = String::from_str("world!");
    let s3 = s1.concat(s2.as_str());
    proof {
        reveal_strlit("Hello, ");
        reveal_strlit("world!");
        reveal_strlit("Hello, world!");
    }
    assert(s3@ =~= "Hello, world!"@);
    s3
}

/// Three words joined by dashes.
pub fn string_format() -> (r: String)
    ensures
        r@ == "tic-tac-toe"@,
{
    let s1 = String::from_str("tic");
    let s2 = String::from_str("tac");
    let s3 = String::from_str("toe");
    let mut s = s1.clone();
    s.append("-");
    s.append(s2.as_str());
    s.append("-");
    s.append(s3.as_str());
    proof {
        reveal_strlit("tic");
        reveal_strlit("tac");
        reveal_strlit("toe");
        reveal_strlit("-");
        reveal_strlit("tic-tac-toe");
    }
    assert(s@ =~= "tic-tac-toe"@);
    s
}

} // verus!
