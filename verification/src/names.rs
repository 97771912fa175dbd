//! Matching of names and command words, character by character.

use vstd::prelude::*;
use vstd::string::StrSliceExecFns;

verus! {

/// A character's code with the capital letters A to Z mapped to their
/// small forms.
pub open spec fn folded(c: char) -> u32 {
    if 'A' <= c <= 'Z' {
        (c as u32 + 32) as u32
    } else {
        c as u32
    }
}

/// `needle` stands in `haystack` at position `at`, capital and small ASCII
/// letters counted as the same.
pub open spec fn matches_at(haystack: Seq<char>, needle: Seq<char>, at: int) -> bool {
    &&& 0 <= at
    &&& at + needle.len() <= haystack.len()
    &&& forall|j: int|
        0 <= j < needle.len() ==> folded(#[trigger] haystack[at + j]) == folded(needle[j])
}

/// `needle` stands somewhere in `haystack`, capital and small ASCII letters
/// counted as the same. The empty needle stands in every haystack.
pub open spec fn contains_ignoring_case(haystack: Seq<char>, needle: Seq<char>) -> bool {
    exists|at: int| matches_at(haystack, needle, at)
}

/// `word` is the beginning of `text`.
pub open spec fn begins_with(text: Seq<char>, word: Seq<char>) -> bool {
    word.len() <= text.len() && text.subrange(0, word.len() as int) == word
}

/// Position of the first space in `text`, or the length of `text` where it
/// has none.
pub open spec fn first_space(text: Seq<char>) -> int
    decreases text.len(),
{
    if text.len() == 0 || text[0] == ' ' {
        0
    } else {
        1 + first_space(text.subrange(1, text.len() as int))
    }
}

/// What follows the first space of a command; the whole command where it
/// has no space.
pub open spec fn single_arg(command: Seq<char>) -> Seq<char> {
    if first_space(command) < command.len() {
        command.subrange(first_space(command) + 1, command.len() as int)
    } else {
        command
    }
}

/// The first space lies inside the text or at its end, nothing before it
/// is a space, and it is a space where it lies inside.
pub proof fn lemma_first_space(text: Seq<char>)
    ensures
        0 <= first_space(text) <= text.len(),
        forall|i: int| 0 <= i < first_space(text) ==> text[i] != ' ',
        first_space(text) < text.len() ==> text[first_space(text)] == ' ',
    decreases text.len(),
{
    if text.len() == 0 || text[0] == ' ' {
    } else {
        let rest = text.subrange(1, text.len() as int);
        lemma_first_space(rest);
        assert forall|i: int| 0 <= i < first_space(text) implies text[i] != ' ' by {
            if i > 0 {
                assert(text[i] == rest[i - 1]);
            }
        }
    }
}

/// The first position at which no space stands before and a space stands
/// at is the first space.
pub proof fn lemma_first_space_found(text: Seq<char>, at: int)
    requires
        0 <= at <= text.len(),
        forall|i: int| 0 <= i < at ==> text[i] != ' ',
        at < text.len() ==> text[at] == ' ',
    ensures
        first_space(text) == at,
{
    lemma_first_space(text);
}

fn fold(c: char) -> (code: u32)
    ensures
        code == folded(c),
{
    if 'A' <= c && c <= 'Z' {
        c as u32 + 32
    } else {
        c as u32
    }
}

/// Whether two strings hold the same characters.
pub fn same_text(a: &str, b: &str) -> (same: bool)
    ensures
        same == (a@ == b@),
{
    let n = a.unicode_len();
    if n != b.unicode_len() {
        return false;
    }
    let mut i: usize = 0;
    while i < n
        invariant
            i <= n,
            n == a@.len(),
            n == b@.len(),
            forall|j: int| 0 <= j < i ==> a@[j] == b@[j],
        decreases n - i,
    {
        if a.get_char(i) != b.get_char(i) {
            return false;
        }
        i += 1;
    }
    assert(a@ =~= b@);
    true
}

/// Whether `text` begins with `word`.
pub fn starts_with(text: &str, word: &str) -> (r: bool)
    ensures
        r == begins_with(text@, word@),
{
    let n = word.unicode_len();
    if n > text.unicode_len() {
        return false;
    }
    let mut i: usize = 0;
    while i < n
        invariant
            i <= n,
            n == word@.len(),
            n <= text@.len(),
            forall|j: int| 0 <= j < i ==> text@[j] == word@[j],
        decreases n - i,
    {
        if text.get_char(i) != word.get_char(i) {
            assert(text@.subrange(0, n as int)[i as int] != word@[i as int]);
            return false;
        }
        i += 1;
    }
    assert(text@.subrange(0, n as int) =~= word@);
    true
}

/// Whether `needle` stands in `haystack` at position `at`.
fn matches_here(haystack: &str, needle: &str, at: usize) -> (r: bool)
    requires
        at + needle@.len() <= haystack@.len(),
    ensures
        r == matches_at(haystack@, needle@, at as int),
{
    let n = needle.unicode_len();
    let h = haystack.unicode_len();
    let mut j: usize = 0;
    while j < n
        invariant
            j <= n,
            n == needle@.len(),
            h == haystack@.len(),
            at + n <= h,
            forall|k: int|
                0 <= k < j ==> folded(#[trigger] haystack@[at + k]) == folded(needle@[k]),
        decreases n - j,
    {
        if fold(haystack.get_char(at + j)) != fold(needle.get_char(j)) {
            assert(folded(haystack@[at + j]) != folded(needle@[j as int]));
            return false;
        }
        j += 1;
    }
    true
}

/// Whether `needle` stands somewhere in `haystack`, capital and small ASCII
/// letters counted as the same.
pub fn string_contains_case_insensitive(haystack: &str, needle: &str) -> (found: bool)
    ensures
        found == contains_ignoring_case(haystack@, needle@),
{
    let h = haystack.unicode_len();
    let n = needle.unicode_len();
    if h < n {
        return false;
    }
    let last = h - n;
    let mut at: usize = 0;
    while at <= last
        invariant
            at <= last + 1,
            last == h - n,
            h == haystack@.len(),
            n == needle@.len(),
            forall|k: int| 0 <= k < at ==> !matches_at(haystack@, needle@, k),
        decreases last + 1 - at,
    {
        if matches_here(haystack, needle, at) {
            return true;
        }
        at += 1;
    }
    false
}

/// What follows the first space of a command, or the whole command where
/// it has no space.
pub fn get_single_arg(command: &str) -> (arg: &str)
    ensures
        arg@ == single_arg(command@),
{
    let n = command.unicode_len();
    let mut i: usize = 0;
    while i < n
        invariant
            i <= n,
            n == command@.len(),
            forall|j: int| 0 <= j < i ==> command@[j] != ' ',
        decreases n - i,
    {
        if command.get_char(i) == ' ' {
            proof {
                lemma_first_space_found(command@, i as int);
            }
            return command.substring_char(i + 1, n);
        }
        i += 1;
    }
    proof {
        lemma_first_space_found(command@, n as int);
    }
    command
}

} // verus!
