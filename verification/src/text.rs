//! Small helpers on text that the rest of the crate shares.

use vstd::prelude::*;

verus! {

/// Appends one character to a string.
///
/// Trusted: stands for `String::push` of the standard library, which is
/// documented to append the given character to the end of the string.
#[verifier::external_body]
pub(crate) fn push_char(s: &mut String, c: char)
    ensures
        final(s)@ == old(s)@.push(c),
{
    s.push(c)
}

/// A text with every character in its lower-case form.
pub uninterp spec fn lowercase(text: Seq<char>) -> Seq<char>;

/// Puts a text in lower case.
///
/// Trusted: stands for `str::to_lowercase` of the standard library, which
/// returns the lower-case equivalent of the text. The contract claims only
/// that the result depends on the text alone.
#[verifier::external_body]
pub(crate) fn to_lowercase(text: &str) -> (r: String)
    ensures
        r@ == lowercase(text@),
{
    text.to_lowercase()
}

/// A copy of a text that may be missing.
pub fn clone_optional(text: &Option<String>) -> (r: Option<String>)
    ensures
        r.deep_view() == text.deep_view(),
{
    match text {
        Some(t) => Some(t.clone()),
        None => None,
    }
}

/// The characters of a text.
pub fn chars_of(text: &str) -> (r: Vec<char>)
    ensures
        r@ == text@,
{
    let mut out: Vec<char> = Vec::new();
    for c in it: text.chars()
        invariant
            it.seq() == text@,
            out@ == text@.take(it.index() as int),
    {
        out.push(c);
    }
    out
}

/// The text made of the characters from position `from` up to position `to`.
pub(crate) fn text_of(chars: &Vec<char>, from: usize, to: usize) -> (r: String)
    requires
        from <= to <= chars@.len(),
    ensures
        r@ == chars@.subrange(from as int, to as int),
{
    let mut out = String::new();
    let mut i: usize = from;
    while i < to
        invariant
            from <= i <= to <= chars@.len(),
            out@ == chars@.subrange(from as int, i as int),
        decreases to - i,
    {
        push_char(&mut out, chars[i]);
        i += 1;
    }
    out
}

/// Whether the characters from position `from` up to position `to` spell
/// `word`.
pub(crate) fn spells(chars: &Vec<char>, from: usize, to: usize, word: &str) -> (r: bool)
    requires
        from <= to <= chars@.len(),
    ensures
        r == (chars@.subrange(from as int, to as int) == word@),
{
    let letters = chars_of(word);
    let ghost part = chars@.subrange(from as int, to as int);
    if letters.len() != to - from {
        return false;
    }
    let mut i: usize = 0;
    while i < letters.len()
        invariant
            from <= to <= chars@.len(),
            letters@ == word@,
            letters@.len() == to - from,
            part == chars@.subrange(from as int, to as int),
            i <= letters@.len(),
            forall|j: int| 0 <= j < i ==> part[j] == letters@[j],
        decreases letters@.len() - i,
    {
        if chars[from + i] != letters[i] {
            return false;
        }
        i += 1;
    }
    assert(part =~= letters@);
    true
}

/// Whether `needle` stands in `hay` from position `i` on.
pub open spec fn occurs_at(needle: Seq<char>, hay: Seq<char>, i: int) -> bool {
    0 <= i && i + needle.len() <= hay.len() && hay.subrange(i, i + needle.len()) == needle
}

/// Whether `needle` stands somewhere in `hay`. The empty text stands in every
/// text.
pub open spec fn occurs_in(needle: Seq<char>, hay: Seq<char>) -> bool {
    exists|i: int| occurs_at(needle, hay, i)
}

/// Whether `needle` stands somewhere in `hay`.
pub fn contains(hay: &Vec<char>, needle: &Vec<char>) -> (r: bool)
    ensures
        r == occurs_in(needle@, hay@),
{
    let n = hay.len();
    let m = needle.len();
    if m > n {
        assert forall|i: int| !occurs_at(needle@, hay@, i) by {}
        return false;
    }
    let mut i: usize = 0;
    while i <= n - m
        invariant
            m <= n,
            n == hay@.len(),
            m == needle@.len(),
            i <= n - m + 1,
            forall|j: int| 0 <= j < i ==> !occurs_at(needle@, hay@, j),
        decreases n - m + 1 - i,
    {
        let mut k: usize = 0;
        while k < m && hay[i + k] == needle[k]
            invariant
                m <= n,
                n == hay@.len(),
                m == needle@.len(),
                i <= n - m,
                k <= m,
                forall|j: int| 0 <= j < k ==> hay@[i + j] == needle@[j],
            decreases m - k,
        {
            k += 1;
        }
        if k == m {
            assert(hay@.subrange(i as int, i + m) =~= needle@);
            assert(occurs_at(needle@, hay@, i as int));
            return true;
        }
        assert(!occurs_at(needle@, hay@, i as int));
        i += 1;
    }
    assert forall|j: int| !occurs_at(needle@, hay@, j) by {}
    false
}

/// A character with the upper-case letters of ASCII made lower-case.
pub open spec fn ascii_lower(c: char) -> char {
    if 'A' <= c && c <= 'Z' {
        ((c as u8 + 32) as u8) as char
    } else {
        c
    }
}

/// Whether two texts are the same but for the case of ASCII letters.
pub open spec fn same_ignoring_ascii_case(a: Seq<char>, b: Seq<char>) -> bool {
    a.len() == b.len() && forall|i: int|
        0 <= i < a.len() ==> ascii_lower(#[trigger] a[i]) == ascii_lower(b[i])
}

fn to_ascii_lower(c: char) -> (r: char)
    ensures
        r == ascii_lower(c),
{
    if 'A' <= c && c <= 'Z' {
        ((c as u8) + 32) as char
    } else {
        c
    }
}

/// Whether two texts are the same but for the case of ASCII letters.
pub fn eq_ignore_ascii_case(a: &str, b: &str) -> (r: bool)
    ensures
        r == same_ignoring_ascii_case(a@, b@),
{
    let x = chars_of(a);
    let y = chars_of(b);
    if x.len() != y.len() {
        return false;
    }
    let mut i: usize = 0;
    while i < x.len()
        invariant
            x@ == a@,
            y@ == b@,
            x@.len() == y@.len(),
            i <= x@.len(),
            forall|j: int| 0 <= j < i ==> ascii_lower(#[trigger] a@[j]) == ascii_lower(b@[j]),
        decreases x@.len() - i,
    {
        if to_ascii_lower(x[i]) != to_ascii_lower(y[i]) {
            return false;
        }
        i += 1;
    }
    true
}

} // verus!
