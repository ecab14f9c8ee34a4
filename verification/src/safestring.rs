//! A string bound, by its type, to the validator that admitted it.

use std::marker::PhantomData;
use vstd::prelude::*;
use vstd::std_specs::cmp::PartialEqSpecImpl;
use vstd::std_specs::convert::TryFromSpecImpl;
use vstd::string::StringExecFns;
use crate::error::{rejection_detail, Error};
use crate::validator::Validator;

verus! {

/// The diagnostic rendering that `std` gives a string slice: what `{:?}`
/// writes for text whose characters are `text`.
pub uninterp spec fn debug_rendering(text: Seq<char>) -> Seq<char>;

/// Formats `s` with `{:?}`, the `Debug` implementation of `str` in `std`.
///
/// Trusted: the result is the diagnostic rendering of the characters of `s`,
/// which depends on those characters alone.
#[verifier::external_body]
fn render_debug(s: &str) -> (out: String)
    ensures
        out@ == debug_rendering(s@),
{
    format!("{:?}", s)
}

/// Text that the validator `T` accepts.
///
/// The text is fixed when the value is made and cannot be changed afterwards.
/// Values made under different validators have different types, so one cannot
/// stand in for, or be compared with, the other.
#[derive(Debug)]
pub struct SafeString<T: Validator> {
    text: String,
    marker: PhantomData<T>,
}

impl<T: Validator> View for SafeString<T> {
    type V = Seq<char>;

    /// The characters of the wrapped text.
    closed spec fn view(&self) -> Seq<char> {
        self.text@
    }
}

impl<T: Validator> SafeString<T> {
    /// The invariant of every value of this type: the validator accepts its text.
    #[verifier::type_invariant]
    pub open spec fn inv(&self) -> bool {
        T::accepts(self@)
    }

    /// Checked construction from `text`: the text itself where the validator
    /// accepts it, the payload of the rejection error where it does not.
    pub open spec fn checked(text: Seq<char>) -> Result<Seq<char>, Seq<char>> {
        if T::accepts(text) {
            Ok(text)
        } else {
            Err(rejection_detail())
        }
    }

    /// Asserting construction from `text`: the text itself.
    pub open spec fn asserted(text: Seq<char>) -> Seq<char>
        recommends
            T::accepts(text),
    {
        text
    }

    /// What a value is written as in a document: its text, and nothing else.
    pub open spec fn encoded(&self) -> Seq<char> {
        self@
    }

    /// Decoding `text` read from a document: the same as checked construction.
    pub open spec fn decoded(text: Seq<char>) -> Result<Seq<char>, Seq<char>> {
        Self::checked(text)
    }

    /// A construction result as plain values: the text of the value that was
    /// made, or the payload of the error.
    pub open spec fn outcome(res: Result<Self, Error>) -> Result<Seq<char>, Seq<char>> {
        match res {
            Ok(made) => Ok(made@),
            Err(e) => Err(e@),
        }
    }

    /// Wraps `s`, which the caller asserts to be acceptable.
    ///
    /// The validator still runs. Verified callers must prove that it accepts
    /// `s`; a caller outside verification that breaks this promise is stopped
    /// by a panic, never handed an unvalidated value.
    pub fn new(s: &str) -> (made: Self)
        requires
            T::accepts(s@),
        ensures
            made@ == Self::asserted(s@),
    {
        match Self::try_from(s) {
            Ok(made) => made,
            Err(_) => vstd::pervasive::unreached(),
        }
    }

    /// The wrapped text. Whoever reads it learns that the validator accepts it.
    pub fn as_str(&self) -> (s: &str)
        ensures
            s@ == self@,
            T::accepts(s@),
    {
        proof {
            use_type_invariant(self);
        }
        self.text.as_str()
    }

    /// The text as it is displayed: the wrapped text itself, unquoted and
    /// unescaped.
    pub fn to_string(&self) -> (s: String)
        ensures
            s@ == self@,
    {
        self.text.clone()
    }

    /// The text as it is shown in diagnostics: the rendering that `{:?}` gives
    /// a string slice.
    pub fn debug_string(&self) -> (s: String)
        ensures
            s@ == debug_rendering(self@),
    {
        render_debug(self.text.as_str())
    }

    /// The decode hook: turns text read from a document into a value, or
    /// rejects it. Applies the same check as [`SafeString::try_from`], and
    /// keeps the text it is handed.
    pub fn deserialize(text: String) -> (res: Result<Self, Error>)
        ensures
            Self::outcome(res) == Self::decoded(text@),
    {
        if T::valid(text.as_str()) {
            Ok(SafeString { text, marker: PhantomData })
        } else {
            Err(Error::rejected())
        }
    }

    /// The encode hook: the text to write into a document. The validator's
    /// name and the fact that it accepted the text are not written.
    pub fn serialize(&self) -> (text: &str)
        ensures
            text@ == self.encoded(),
    {
        self.text.as_str()
    }

    /// Checked construction succeeds exactly on the text that the validator
    /// accepts, and the value it makes holds that text unchanged.
    pub proof fn lemma_checked_iff_accepted(text: Seq<char>)
        ensures
            Self::checked(text) is Ok <==> T::accepts(text),
            T::accepts(text) ==> Self::checked(text) == Ok::<Seq<char>, Seq<char>>(text),
            !T::accepts(text) ==> Self::checked(text) == Err::<Seq<char>, Seq<char>>(
                rejection_detail(),
            ),
    {
    }

    /// On text that the validator accepts, asserting construction makes the
    /// value that checked construction makes.
    pub proof fn lemma_asserted_agrees_with_checked(text: Seq<char>)
        requires
            T::accepts(text),
        ensures
            Self::checked(text) == Ok::<Seq<char>, Seq<char>>(Self::asserted(text)),
    {
    }

    /// Writing a value out and decoding what was written, under the same
    /// validator, gives a value with the same text.
    pub proof fn lemma_decode_inverts_encode(value: Self)
        requires
            value.inv(),
        ensures
            Self::decoded(value.encoded()) == Ok::<Seq<char>, Seq<char>>(value@),
    {
    }

    /// Decoding text that the validator does not accept fails, and makes no
    /// value.
    pub proof fn lemma_decode_rejects_unaccepted(text: Seq<char>)
        requires
            !T::accepts(text),
        ensures
            Self::decoded(text) is Err,
    {
    }
}

impl<'a, T: Validator> TryFrom<&'a str> for SafeString<T> {
    type Error = Error;

    /// Wraps a copy of `s` if the validator accepts it, and returns the
    /// rejection error otherwise.
    fn try_from(s: &'a str) -> (res: Result<Self, Error>)
        ensures
            Self::outcome(res) == Self::checked(s@),
    {
        if T::valid(s) {
            Ok(SafeString { text: String::from_str(s), marker: PhantomData })
        } else {
            Err(Error::rejected())
        }
    }
}

/// The contract of `try_from` is stated on the function itself, over views:
/// two strings with the same characters need not be the same value, so no
/// function from the argument to the result can be given here.
impl<'a, T: Validator> TryFromSpecImpl<&'a str> for SafeString<T> {
    open spec fn obeys_try_from_spec() -> bool {
        false
    }

    open spec fn try_from_spec(v: &'a str) -> Result<Self, Error> {
        arbitrary()
    }
}

impl<T: Validator> PartialEq for SafeString<T> {
    /// Two values made under the same validator are equal when their texts are.
    fn eq(&self, other: &Self) -> (same: bool) {
        self.text == other.text
    }
}

impl<T: Validator> PartialEqSpecImpl for SafeString<T> {
    open spec fn obeys_eq_spec() -> bool {
        true
    }

    open spec fn eq_spec(&self, other: &Self) -> bool {
        self@ == other@
    }
}

} // verus!
