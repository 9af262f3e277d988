//! The subject container: a borrowed subject and the diagnostics of a failed assertion.

use vstd::prelude::*;
use crate::render::{OrderedValue, decimal_text};

verus! {

/// What a container holds, seen mathematically.
pub struct ChainState {
    /// The subject, as the integer it stands for.
    pub subject: int,
    /// The expectation text, once set.
    pub expected: Option<Seq<char>>,
    /// The actual-value text, once set.
    pub actual: Option<Seq<char>>,
    /// The diagnostic of the failure that ended the chain, if one did.
    pub failure: Option<Seq<char>>,
}

/// A text that was set, or the empty text where none was.
pub open spec fn text_or_empty(t: Option<Seq<char>>) -> Seq<char> {
    match t {
        Some(s) => s,
        None => Seq::empty(),
    }
}

/// The two-line diagnostic of a failure.
pub open spec fn report(expected: Option<Seq<char>>, actual: Option<Seq<char>>) -> Seq<char> {
    "\n\texpected: "@ + text_or_empty(expected) + "\n\t but was: "@ + text_or_empty(actual)
}

/// A rendered value between angle brackets.
pub open spec fn angled(text: Seq<char>) -> Seq<char> {
    "<"@ + text + ">"@
}

impl ChainState {
    /// A chain that has just been opened on `subject`.
    pub open spec fn fresh(subject: int) -> ChainState {
        ChainState { subject, expected: None, actual: None, failure: None }
    }

    /// The state after a check whose relation is `holds`: unchanged when it holds or when
    /// the chain has already failed; otherwise it records `expectation`, the subject's
    /// rendering and the diagnostic made of both.
    pub open spec fn checked(self, holds: bool, expectation: Seq<char>) -> ChainState {
        if holds || self.failure is Some {
            self
        } else {
            let actual = angled(decimal_text(self.subject));
            ChainState {
                subject: self.subject,
                expected: Some(expectation),
                actual: Some(actual),
                failure: Some(report(Some(expectation), Some(actual))),
            }
        }
    }
}

/// A subject under test, borrowed for the length of one chain of assertions.
pub struct Spec<'s, T> {
    subject: &'s T,
    expected: Option<String>,
    actual: Option<String>,
    failure: Option<String>,
}

impl<'s, T: OrderedValue> View for Spec<'s, T> {
    type V = ChainState;

    closed spec fn view(&self) -> ChainState {
        ChainState {
            subject: self.subject.value(),
            expected: self.expected.deep_view(),
            actual: self.actual.deep_view(),
            failure: self.failure.deep_view(),
        }
    }
}

/// Opens a chain of assertions on `subject`.
pub fn assert_that<'s, T: OrderedValue>(subject: &'s T) -> (r: Spec<'s, T>)
    ensures
        r@ == ChainState::fresh(subject.value()),
        r.subject() == subject,
{
    Spec { subject, expected: None, actual: None, failure: None }
}

impl<'s, T: OrderedValue> Spec<'s, T> {
    /// The subject that the chain holds.
    pub closed spec fn subject(&self) -> &'s T {
        self.subject
    }

    /// The subject under test.
    pub fn subject_ref(&self) -> (r: &'s T)
        ensures
            r == self.subject(),
            r.value() == self@.subject,
    {
        self.subject
    }

    /// Sets the expectation text.
    pub fn with_expected(&mut self, text: String) -> (r: &mut Self)
        ensures
            r@ == (ChainState { expected: Some(text@), ..old(self)@ }),
            r.subject() == old(self).subject(),
            *final(self) == *final(r),
    {
        self.expected = Some(text);
        self
    }

    /// Sets the actual-value text.
    pub fn with_actual(&mut self, text: String) -> (r: &mut Self)
        ensures
            r@ == (ChainState { actual: Some(text@), ..old(self)@ }),
            r.subject() == old(self).subject(),
            *final(self) == *final(r),
    {
        self.actual = Some(text);
        self
    }

    /// Ends the chain as failed, with the diagnostic made of the two texts (empty where one
    /// was not set). Once a chain has failed, its first diagnostic stands; the runner that
    /// reads it aborts the test.
    pub fn fail(&mut self)
        ensures
            final(self)@ == (ChainState {
                failure: Some(
                    if old(self)@.failure is Some {
                        old(self)@.failure.unwrap()
                    } else {
                        report(old(self)@.expected, old(self)@.actual)
                    },
                ),
                ..old(self)@
            }),
            final(self).subject() == old(self).subject(),
    {
        if self.failure.is_none() {
            let message = diagnostic(&self.expected, &self.actual);
            self.failure = Some(message);
        }
    }

    /// The diagnostic of the failure that ended the chain, if one did.
    pub fn failure(&self) -> (r: Option<&String>)
        ensures
            r is Some == self@.failure is Some,
            r is Some ==> r.unwrap()@ == self@.failure.unwrap(),
    {
        match &self.failure {
            Some(m) => Some(m),
            None => None,
        }
    }
}

fn text_of(t: &Option<String>) -> (r: &str)
    ensures
        r@ == text_or_empty(t.deep_view()),
{
    match t {
        Some(s) => s.as_str(),
        None => {
            proof {
                reveal_strlit("");
            }
            ""
        },
    }
}

/// The two-line diagnostic of the given texts.
pub fn diagnostic(expected: &Option<String>, actual: &Option<String>) -> (r: String)
    ensures
        r@ == report(expected.deep_view(), actual.deep_view()),
{
    let mut message = String::from_str("\n\texpected: ");
    message.append(text_of(expected));
    message.append("\n\t but was: ");
    message.append(text_of(actual));
    message
}

} // verus!
