//! Text truncation bounding what is sent to the chat API.

use vstd::prelude::*;

verus! {

/// Soft limit, in characters, on text forwarded to the chat API per call.
pub const CHAR_SOFT_LIMIT: usize = 9000;

/// The prefix of `s` of at most `limit` characters: `s` itself when it is
/// short enough, otherwise its first `limit` characters.
pub open spec fn spec_truncate(s: Seq<char>, limit: nat) -> Seq<char> {
    if s.len() <= limit {
        s
    } else {
        s.subrange(0, limit as int)
    }
}

/// The prefix of `s` of at most `limit` characters, never splitting a
/// character: character boundaries, not byte offsets, decide the cut.
pub fn truncate_chars<'a>(s: &'a str, limit: usize) -> (r: &'a str)
    ensures
        r@ == spec_truncate(s@, limit as nat),
        s@.len() <= limit ==> r@ == s@,
        s@.len() > limit ==> r@.len() == limit && r@ == s@.subrange(0, limit as int),
{
    let n = s.unicode_len();
    if n <= limit {
        s
    } else {
        s.substring_char(0, limit)
    }
}

/// Bounds `s` to the soft character limit used for every chat request.
pub fn truncate<'a>(s: &'a str) -> (r: &'a str)
    ensures
        r@ == spec_truncate(s@, CHAR_SOFT_LIMIT as nat),
{
    truncate_chars(s, CHAR_SOFT_LIMIT)
}

} // verus!
