//! The operator's answer to a proposed message in the prompt-and-branch
//! strategy: accept, edit or reject, matched without regard to ASCII case.

use vstd::prelude::*;
use crate::text::{trim_of, trim_text};

verus! {

/// What the operator asked for.
#[derive(PartialEq, Eq, Structural, Clone, Copy, Debug)]
pub enum Choice {
    Accept,
    Edit,
    Reject,
}

/// The code of a character with ASCII capitals folded to small letters.
pub open spec fn fold(c: char) -> u32 {
    if 'A' <= c && c <= 'Z' {
        (c as u32 + 32) as u32
    } else {
        c as u32
    }
}

/// Two texts that differ at most in the case of ASCII letters.
pub open spec fn same_ignoring_case(s: Seq<char>, t: Seq<char>) -> bool {
    &&& s.len() == t.len()
    &&& forall|i: int| 0 <= i < s.len() ==> #[trigger] fold(s[i]) == fold(t[i])
}

/// The choice a trimmed answer stands for: "y" or "yes" accepts, "e" or
/// "edit" edits, and anything else, "n" and "no" among them, rejects.
pub open spec fn choice_of(t: Seq<char>) -> Choice {
    if same_ignoring_case(t, "y"@) || same_ignoring_case(t, "yes"@) {
        Choice::Accept
    } else if same_ignoring_case(t, "e"@) || same_ignoring_case(t, "edit"@) {
        Choice::Edit
    } else {
        Choice::Reject
    }
}

fn fold_char(c: char) -> (r: u32)
    ensures
        r == fold(c),
{
    if 'A' <= c && c <= 'Z' {
        c as u32 + 32
    } else {
        c as u32
    }
}

/// Whether two texts differ at most in the case of ASCII letters.
pub fn eq_ignoring_case(s: &str, t: &str) -> (r: bool)
    ensures
        r == same_ignoring_case(s@, t@),
{
    let n = s.unicode_len();
    if n != t.unicode_len() {
        return false;
    }
    let mut i: usize = 0;
    while i < n
        invariant
            n == s@.len(),
            n == t@.len(),
            i <= n,
            forall|j: int| 0 <= j < i ==> #[trigger] fold(s@[j]) == fold(t@[j]),
        decreases n - i,
    {
        if fold_char(s.get_char(i)) != fold_char(t.get_char(i)) {
            return false;
        }
        i = i + 1;
    }
    true
}

/// The choice a trimmed answer stands for.
pub fn choice_from_answer(t: &str) -> (r: Choice)
    ensures
        r == choice_of(t@),
{
    if eq_ignoring_case(t, "y") || eq_ignoring_case(t, "yes") {
        Choice::Accept
    } else if eq_ignoring_case(t, "e") || eq_ignoring_case(t, "edit") {
        Choice::Edit
    } else {
        Choice::Reject
    }
}

/// The choice a line typed by the operator stands for, surrounding white
/// space aside.
pub fn parse_choice(line: &str) -> (r: Choice)
    ensures
        r == choice_of(trim_of(line@)),
{
    let t = trim_text(line);
    choice_from_answer(t.as_str())
}

/// Answers that differ only in the case of ASCII letters stand for the same
/// choice.
pub proof fn choice_ignores_case(s: Seq<char>, t: Seq<char>)
    requires
        same_ignoring_case(s, t),
    ensures
        choice_of(s) == choice_of(t),
{
    assert forall|w: Seq<char>| same_ignoring_case(s, w) == same_ignoring_case(t, w) by {
        if s.len() == w.len() {
            assert forall|i: int| 0 <= i < s.len() implies (fold(s[i]) == fold(w[i]) <==> fold(t[i]) == fold(w[i])) by {
                assert(fold(s[i]) == fold(t[i]));
            }
        }
    }
}

/// The single letters abbreviate the words, in either case: "y", "Y", "yes"
/// and "YES" all accept, "e" and "edit" edit, "n" and "no" reject.
pub proof fn choice_words()
    ensures
        choice_of("y"@) == Choice::Accept,
        choice_of("Y"@) == Choice::Accept,
        choice_of("yes"@) == Choice::Accept,
        choice_of("YES"@) == Choice::Accept,
        choice_of("e"@) == Choice::Edit,
        choice_of("E"@) == Choice::Edit,
        choice_of("edit"@) == Choice::Edit,
        choice_of("EDIT"@) == Choice::Edit,
        choice_of("n"@) == Choice::Reject,
        choice_of("no"@) == Choice::Reject,
{
    reveal_strlit("y");
    reveal_strlit("Y");
    reveal_strlit("yes");
    reveal_strlit("YES");
    reveal_strlit("e");
    reveal_strlit("E");
    reveal_strlit("edit");
    reveal_strlit("EDIT");
    reveal_strlit("n");
    reveal_strlit("no");
    assert(same_ignoring_case("Y"@, "y"@));
    assert(same_ignoring_case("YES"@, "yes"@));
    assert(same_ignoring_case("E"@, "e"@));
    assert(same_ignoring_case("EDIT"@, "edit"@));
    assert(fold('y') == 121 && fold('e') == 101 && fold('E') == 101 && fold('n') == 110);
    assert(fold("E"@[0]) != fold("y"@[0]));
    assert(fold("n"@[0]) != fold("y"@[0]));
    assert(fold("n"@[0]) != fold("e"@[0]));
}

/// Any answer that is none of "y", "yes", "e", "edit", "n", "no", whatever the
/// case of its letters, is treated as "no".
pub proof fn other_answers_reject(t: Seq<char>)
    requires
        !same_ignoring_case(t, "y"@),
        !same_ignoring_case(t, "yes"@),
        !same_ignoring_case(t, "e"@),
        !same_ignoring_case(t, "edit"@),
        !same_ignoring_case(t, "n"@),
        !same_ignoring_case(t, "no"@),
    ensures
        choice_of(t) == choice_of("no"@),
{
    choice_words();
}

} // verus!
