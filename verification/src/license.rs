//! License reports: their data model, the service that assembles them and the
//! decisions of the download endpoint.

pub mod endpoints;
pub mod model;
pub mod service;

use vstd::prelude::*;
use crate::text::push_char;

verus! {

/// Whether a character may stand in a file name as it is: an ASCII letter or
/// digit, a hyphen, an underscore or a dot.
pub open spec fn is_filename_safe(c: char) -> bool {
    ('a' <= c && c <= 'z') || ('A' <= c && c <= 'Z') || ('0' <= c && c <= '9') || c == '-' || c
        == '_' || c == '.'
}

/// The character that takes the place of `c` in a file name.
pub open spec fn sanitize_char(c: char) -> char {
    if is_filename_safe(c) {
        c
    } else {
        '_'
    }
}

/// The file-name token made from a display name: every character that is not
/// safe in a file name is replaced by an underscore.
pub open spec fn sanitized(name: Seq<char>) -> Seq<char> {
    Seq::new(name.len(), |i: int| sanitize_char(name[i]))
}

fn safe_in_filename(c: char) -> (r: bool)
    ensures
        r == is_filename_safe(c),
{
    ('a' <= c && c <= 'z') || ('A' <= c && c <= 'Z') || ('0' <= c && c <= '9') || c == '-' || c
        == '_' || c == '.'
}

/// Turns a display name into a token that is safe as part of a file name.
pub fn get_sanitize_filename(name: String) -> (r: String)
    ensures
        r@ == sanitized(name@),
{
    let mut out = String::new();
    for c in it: name.as_str().chars()
        invariant
            it.seq() == name@,
            out@ == sanitized(name@).take(it.index() as int),
    {
        let d = if safe_in_filename(c) { c } else { '_' };
        push_char(&mut out, d);
    }
    out
}

} // verus!
