//! Validators: named, stateless rules over text.

use vstd::prelude::*;
use vstd::utf8::encode_utf8;
use crate::words::{blanks, count_words, mark_blanks, word_count};

verus! {

/// A rule over text, named by the type that implements it.
///
/// The rule is `accepts`, a predicate over the characters of the text, and
/// `valid` is its executable form: it always returns, and it answers as
/// `accepts` does, so that asking twice about the same characters gives the
/// same answer.
///
/// A verified implementation proves this of its `valid`. One written outside
/// verification gives `valid` alone and is taken at its word: what is proved
/// about the strings it admits rests on its `valid` being such a function.
pub trait Validator {
    /// Whether the rule holds of `text`.
    ///
    /// A validator states its rule by defining this predicate. One that does
    /// not is held to a fixed predicate of which nothing else is known.
    open spec fn accepts(text: Seq<char>) -> bool {
        arbitrary::<spec_fn(Seq<char>) -> bool>()(text)
    }

    /// Decides the rule for `s`.
    fn valid(s: &str) -> (ok: bool)
        ensures
            ok == Self::accepts(s@),
    ;
}

/// Text that contains the character `@` at least once.
#[derive(Debug)]
pub struct Email {}

impl Validator for Email {
    open spec fn accepts(text: Seq<char>) -> bool {
        text.contains('@')
    }

    fn valid(s: &str) -> (ok: bool) {
        let mut found = false;
        for c in it: s.chars()
            invariant
                it.seq() == s@,
                found == s@.take(it.index() as int).contains('@'),
        {
            proof {
                let seen = s@.take(it.index() as int);
                let next = s@.take(it.index() + 1);
                assert(next == seen.push(c));
                if seen.contains('@') {
                    let i = choose|i: int| 0 <= i < seen.len() && seen[i] == '@';
                    assert(next[i] == '@');
                }
                if c == '@' {
                    assert(next[it.index() as int] == '@');
                }
            }
            if c == '@' {
                found = true;
            }
        }
        assert(s@.take(s@.len() as int) == s@);
        found
    }
}

/// Text whose UTF-8 encoding is exactly 32 bytes long.
#[derive(Debug)]
pub struct ApiKey {}

impl Validator for ApiKey {
    open spec fn accepts(text: Seq<char>) -> bool {
        encode_utf8(text).len() == 32
    }

    fn valid(s: &str) -> (ok: bool) {
        s.as_bytes().len() == 32
    }
}

/// Text made of exactly two words, where white space separates words.
#[derive(Debug)]
pub struct Fullname {}

impl Validator for Fullname {
    open spec fn accepts(text: Seq<char>) -> bool {
        word_count(blanks(text)) == 2
    }

    fn valid(s: &str) -> (ok: bool) {
        let blank = mark_blanks(s);
        count_words(blank.as_slice()) == 2
    }
}

} // verus!
