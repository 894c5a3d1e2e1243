//! Whitespace trimming and the blank test used throughout the pipeline.

use vstd::prelude::*;

verus! {

/// The characters with the Unicode White_Space property, which is what
/// `char::is_whitespace` tests.
pub open spec fn is_white_space(c: char) -> bool {
    let n = c as u32;
    (0x9 <= n && n <= 0xD) || n == 0x20 || n == 0x85 || n == 0xA0 || n == 0x1680
        || (0x2000 <= n && n <= 0x200A) || n == 0x2028 || n == 0x2029 || n == 0x202F
        || n == 0x205F || n == 0x3000
}

/// The text without its leading white space.
pub open spec fn trim_start_of(s: Seq<char>) -> Seq<char>
    decreases s.len(),
{
    if s.len() > 0 && is_white_space(s[0]) {
        trim_start_of(s.drop_first())
    } else {
        s
    }
}

/// The text without its trailing white space.
pub open spec fn trim_end_of(s: Seq<char>) -> Seq<char>
    decreases s.len(),
{
    if s.len() > 0 && is_white_space(s.last()) {
        trim_end_of(s.drop_last())
    } else {
        s
    }
}

/// The text without its leading and trailing white space.
pub open spec fn trim_of(s: Seq<char>) -> Seq<char> {
    trim_end_of(trim_start_of(s))
}

/// A text is blank when nothing is left of it once trimmed.
pub open spec fn blank(s: Seq<char>) -> bool {
    trim_of(s).len() == 0
}

proof fn trim_start_shape(s: Seq<char>)
    ensures
        trim_start_of(s).len() == 0 || !is_white_space(trim_start_of(s)[0]),
    decreases s.len(),
{
    if s.len() > 0 && is_white_space(s[0]) {
        trim_start_shape(s.drop_first());
    }
}

proof fn trim_end_shape(s: Seq<char>)
    ensures
        trim_end_of(s).len() == 0 || !is_white_space(trim_end_of(s).last()),
        s.len() > 0 && !is_white_space(s[0]) ==> trim_end_of(s).len() > 0 && trim_end_of(s)[0] == s[0],
    decreases s.len(),
{
    if s.len() > 0 && is_white_space(s.last()) {
        trim_end_shape(s.drop_last());
    }
}

/// Trimming a trimmed text changes nothing.
pub proof fn trim_idempotent(s: Seq<char>)
    ensures
        trim_of(trim_of(s)) == trim_of(s),
{
    let t = trim_of(s);
    trim_start_shape(s);
    trim_end_shape(trim_start_of(s));
    if t.len() > 0 {
        assert(trim_start_of(t) == t);
        assert(trim_end_of(t) == t);
    } else {
        assert(trim_start_of(t) == t);
        assert(trim_end_of(t) == t);
    }
}

/// Relies on `str::trim`: the text with leading and trailing characters that
/// have the White_Space property removed.
#[verifier::external_body]
pub(crate) fn trim_text(s: &str) -> (r: String)
    ensures
        r@ == trim_of(s@),
{
    s.trim().to_string()
}

/// Whether the text is empty once trimmed.
pub fn is_blank(s: &str) -> (r: bool)
    ensures
        r == blank(s@),
{
    let t = trim_text(s);
    t.as_str().unicode_len() == 0
}

} // verus!
