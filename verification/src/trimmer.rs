//! Bounding text to a maximum display width.
use vstd::prelude::*;
use vstd::string::*;

verus! {

/// What trimming yields: the text itself when it is shorter than the limit,
/// and otherwise its first `limit - suffix.len()` characters with the suffix
/// appended, so that the whole result stays within the limit.
pub open spec fn trimmed(text: Seq<char>, limit: int, suffix: Seq<char>) -> Seq<char>
    recommends
        suffix.len() < limit,
{
    if text.len() < limit {
        text
    } else {
        text.take(limit - suffix.len()) + suffix
    }
}

/// Bounds `text` to at most `limit` characters, marking a cut with `suffix`.
///
/// The limit must strictly exceed the suffix's length: a narrower limit is a
/// misconfigured field schema, a programming error rather than a condition to
/// recover from. Counting and cutting go by characters, never by raw bytes,
/// so a multi-byte character is kept or dropped whole.
pub fn trim_long_string(text: &str, limit: usize, suffix: &str) -> (r: String)
    requires
        suffix@.len() < limit,
    ensures
        r@ == trimmed(text@, limit as int, suffix@),
        text@.len() < limit ==> r@ == text@,
        r@.len() <= limit,
        text@.len() >= limit ==> r@.len() == limit && r@.skip(limit - suffix@.len()) == suffix@,
{
    let text_len = text.unicode_len();
    if text_len < limit {
        return String::from_str(text);
    }
    let suffix_len = suffix.unicode_len();
    let keep = limit - suffix_len;
    let head = text.substring_char(0, keep);
    let mut r = String::from_str(head);
    r.append(suffix);
    proof {
        assert(text@.take(limit - suffix@.len()) =~= text@.subrange(0, keep as int));
        assert(r@.skip(limit - suffix@.len()) =~= suffix@);
    }
    r
}

} // verus!
