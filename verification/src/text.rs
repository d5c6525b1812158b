//! Operations on text, stated over sequences of characters.
use vstd::prelude::*;
use vstd::string::*;

verus! {

/// The characters of an optional string.
pub open spec fn opt_text(o: Option<String>) -> Option<Seq<char>> {
    match o {
        Some(s) => Some(s@),
        None => None,
    }
}

/// The characters of an optional string that is only borrowed.
pub open spec fn opt_ref_text(o: Option<&String>) -> Option<Seq<char>> {
    match o {
        Some(s) => Some(s@),
        None => None,
    }
}

/// The characters of each string of a list.
pub open spec fn texts(s: Seq<String>) -> Seq<Seq<char>> {
    s.map_values(|t: String| t@)
}

/// `needle` occurs in `text` at position `at`.
pub open spec fn occurs_at(text: Seq<char>, needle: Seq<char>, at: int) -> bool {
    &&& 0 <= at
    &&& at + needle.len() <= text.len()
    &&& text.subrange(at, at + needle.len()) == needle
}

/// `needle` occurs somewhere in `text`.
pub open spec fn occurs_in(text: Seq<char>, needle: Seq<char>) -> bool {
    exists|at: int| occurs_at(text, needle, at)
}

/// The lowercase form of an ASCII letter; every other character stays as it is.
pub open spec fn ascii_lower(c: char) -> char {
    if 'A' <= c && c <= 'Z' {
        ((c as u32) + 32) as char
    } else {
        c
    }
}

/// Every character is ASCII.
pub open spec fn all_ascii(s: Seq<char>) -> bool {
    forall|i: int| 0 <= i < s.len() ==> (#[trigger] s[i] as u32) < 128
}

/// The first `n` characters, or all of them when there are fewer.
pub open spec fn prefix_of(s: Seq<char>, n: int) -> Seq<char> {
    if s.len() <= n {
        s
    } else {
        s.subrange(0, n)
    }
}

/// The lowercase equivalent of a text as Unicode defines it: what
/// [`str::to_lowercase`] returns.
pub uninterp spec fn unicode_lowercase(s: Seq<char>) -> Seq<char>;

/// Calls [`str::to_lowercase`].
///
/// The result is named; what is claimed of it beyond the name is that on ASCII
/// text each letter is replaced by its lowercase form and the rest is kept.
#[verifier::external_body]
pub(crate) fn to_lowercase(s: &str) -> (r: String)
    ensures
        r@ == unicode_lowercase(s@),
        all_ascii(s@) ==> r@ == s@.map_values(|c: char| ascii_lower(c)),
{
    s.to_lowercase()
}

/// Tests whether two texts hold the same characters.
pub fn text_eq(a: &str, b: &str) -> (r: bool)
    ensures
        r == (a@ == b@),
{
    a.to_owned() == b.to_owned()
}

/// Puts one text behind another.
pub fn joined(a: &str, b: &str) -> (r: String)
    ensures
        r@ == a@ + b@,
{
    let mut out: String = a.to_owned();
    out.append(b);
    out
}

/// The first `n` characters of a text.
pub fn first_chars(s: &str, n: usize) -> (r: String)
    ensures
        r@ == prefix_of(s@, n as int),
{
    if s.unicode_len() <= n {
        s.to_owned()
    } else {
        s.substring_char(0, n).to_owned()
    }
}

/// The characters of a text, one by one.
fn char_list(s: &str) -> (r: Vec<char>)
    ensures
        r@ == s@,
{
    let mut out: Vec<char> = Vec::new();
    for c in it: s.chars()
        invariant
            it.seq() == s@,
            out@ == s@.take(it.index() as int),
    {
        out.push(c);
        assert(out@ =~= s@.take(it.index() + 1));
    }
    assert(s@.take(s@.len() as int) =~= s@);
    out
}

/// Tests whether `needle` stands in `text` at position `at`.
fn matches_at(text: &Vec<char>, needle: &Vec<char>, at: usize) -> (r: bool)
    requires
        at + needle.len() <= text.len(),
    ensures
        r == occurs_at(text@, needle@, at as int),
{
    let mut i: usize = 0;
    while i < needle.len()
        invariant
            i <= needle.len(),
            at + needle.len() <= text.len(),
            forall|k: int| 0 <= k < i ==> text@[at + k] == needle@[k],
        decreases needle.len() - i,
    {
        if text[at + i] != needle[i] {
            assert(text@.subrange(at as int, at + needle.len())[i as int] == text@[at + i]);
            return false;
        }
        i += 1;
    }
    assert(text@.subrange(at as int, at + needle.len()) =~= needle@);
    true
}

/// Tests whether `needle` occurs in `text`.
pub fn contains_text(text: &str, needle: &str) -> (r: bool)
    ensures
        r == occurs_in(text@, needle@),
{
    let hay: Vec<char> = char_list(text);
    let pin: Vec<char> = char_list(needle);
    if pin.len() > hay.len() {
        return false;
    }
    let last: usize = hay.len() - pin.len();
    let mut at: usize = 0;
    loop
        invariant
            hay@ == text@,
            pin@ == needle@,
            pin.len() <= hay.len(),
            last == hay.len() - pin.len(),
            at <= last,
            forall|k: int| 0 <= k < at ==> !occurs_at(text@, needle@, k),
        decreases last - at,
    {
        if matches_at(&hay, &pin, at) {
            return true;
        }
        if at == last {
            return false;
        }
        at += 1;
    }
}

} // verus!
