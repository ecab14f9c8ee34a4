//! Counting the words of a text: its maximal runs of characters that are not
//! white space.

use vstd::prelude::*;

verus! {

/// Whether `c` is white space, as `char::is_whitespace` of `std` decides it.
pub uninterp spec fn is_whitespace(c: char) -> bool;

/// Asks `char::is_whitespace` of `std` about `c`.
///
/// Trusted: the answer depends on `c` alone.
#[verifier::external_body]
fn char_is_whitespace(c: char) -> (blank: bool)
    ensures
        blank == is_whitespace(c),
{
    c.is_whitespace()
}

/// For each character of `text`, whether it is white space.
pub open spec fn blanks(text: Seq<char>) -> Seq<bool> {
    text.map_values(|c: char| is_whitespace(c))
}

/// Whether a word starts at position `i`: the character there is not white
/// space, and it is the first character or follows white space.
pub open spec fn word_starts_at(blank: Seq<bool>, i: int) -> bool {
    &&& 0 <= i < blank.len()
    &&& !blank[i]
    &&& (i == 0 || blank[i - 1])
}

/// The number of words: the number of positions at which a word starts.
pub open spec fn word_count(blank: Seq<bool>) -> nat
    decreases blank.len(),
{
    if blank.len() == 0 {
        0
    } else {
        let before = word_count(blank.drop_last());
        if word_starts_at(blank, blank.len() - 1) {
            before + 1
        } else {
            before
        }
    }
}

/// Marks the white space of `s`, character by character.
pub fn mark_blanks(s: &str) -> (blank: Vec<bool>)
    ensures
        blank@ == blanks(s@),
{
    let mut blank: Vec<bool> = Vec::new();
    for c in it: s.chars()
        invariant
            it.seq() == s@,
            blank@ == blanks(s@.take(it.index() as int)),
    {
        assert(s@.take(it.index() + 1) == s@.take(it.index() as int).push(c));
        blank.push(char_is_whitespace(c));
    }
    assert(s@.take(s@.len() as int) == s@);
    blank
}

/// Counts the words of a text whose white space is marked in `blank`.
pub fn count_words(blank: &[bool]) -> (n: usize)
    ensures
        n == word_count(blank@),
{
    let mut n: usize = 0;
    let mut i: usize = 0;
    let mut after_blank = true;
    while i < blank.len()
        invariant
            i <= blank.len(),
            n <= i,
            n == word_count(blank@.take(i as int)),
            after_blank == (i == 0 || blank@[i - 1]),
        decreases blank.len() - i,
    {
        proof {
            let seen = blank@.take(i + 1);
            assert(seen.drop_last() == blank@.take(i as int));
            assert(word_starts_at(seen, i as int) == (!blank@[i as int] && after_blank));
        }
        if !blank[i] && after_blank {
            n = n + 1;
        }
        after_blank = blank[i];
        i = i + 1;
    }
    assert(blank@.take(blank@.len() as int) == blank@);
    n
}

} // verus!
