//! Display helpers that the terminal front end uses.

use vstd::prelude::*;
use crate::text::{chars_of, slice_chars, string_from_chars};

verus! {

/// What the tool is doing.
#[derive(PartialEq, Eq, Structural, Clone, Copy)]
pub enum Mode {
    Inspect,
    Export,
}

impl Mode {
    /// The mode's label.
    pub fn as_str(&self) -> (r: &'static str)
        ensures
            r@ == match *self {
                Mode::Inspect => "INSPECT"@,
                Mode::Export => "EXPORT"@,
            },
    {
        match self {
            Mode::Inspect => "INSPECT",
            Mode::Export => "EXPORT",
        }
    }
}

/// A path shortened for display: kept whole when it has at most `max_len`
/// characters (or at most 62), else its first 30 characters, `...`, and its
/// last 32.
pub open spec fn truncated(p: Seq<char>, max_len: nat) -> Seq<char> {
    if p.len() <= max_len || p.len() <= 62 {
        p
    } else {
        p.take(30) + "..."@ + p.skip(p.len() - 32)
    }
}

/// Shortens a path for display, on character boundaries.
pub fn safe_truncate_path(path: &str, max_len: usize) -> (r: String)
    ensures
        r@ == truncated(path@, max_len as nat),
{
    let chars = chars_of(path);
    let n = chars.len();
    if n <= max_len || n <= 62 {
        return string_from_chars(&chars);
    }
    let mut r = string_from_chars(&slice_chars(&chars, 0, 30));
    r.append("...");
    r.append(string_from_chars(&slice_chars(&chars, n - 32, n)).as_str());
    assert(chars@.subrange(0, 30) =~= path@.take(30));
    assert(chars@.subrange(n - 32, n as int) =~= path@.skip(n - 32));
    r
}

} // verus!
