//! The ordering assertions.

use vstd::prelude::*;
use crate::render::{OrderedValue, decimal_text, render};
use crate::subject::{ChainState, Spec, angled};

verus! {

/// The expectation of `is_less_than(o)`.
pub open spec fn less_than_text(o: int) -> Seq<char> {
    "value less than "@ + angled(decimal_text(o))
}

/// The expectation of `is_less_than_or_equal_to(o)`.
pub open spec fn less_than_or_equal_to_text(o: int) -> Seq<char> {
    "value less than or equal to "@ + angled(decimal_text(o))
}

/// The expectation of `is_greater_than(o)`.
pub open spec fn greater_than_text(o: int) -> Seq<char> {
    "value greater than "@ + angled(decimal_text(o))
}

/// The expectation of `is_greater_than_or_equal_to(o)`.
pub open spec fn greater_than_or_equal_to_text(o: int) -> Seq<char> {
    "value greater than or equal to "@ + angled(decimal_text(o))
}

impl ChainState {
    /// The state after asserting that the subject is less than `o`.
    pub open spec fn after_less_than(self, o: int) -> ChainState {
        self.checked(self.subject < o, less_than_text(o))
    }

    /// The state after asserting that the subject is at most `o`.
    pub open spec fn after_less_than_or_equal_to(self, o: int) -> ChainState {
        self.checked(self.subject <= o, less_than_or_equal_to_text(o))
    }

    /// The state after asserting that the subject is greater than `o`.
    pub open spec fn after_greater_than(self, o: int) -> ChainState {
        self.checked(self.subject > o, greater_than_text(o))
    }

    /// The state after asserting that the subject is at least `o`.
    pub open spec fn after_greater_than_or_equal_to(self, o: int) -> ChainState {
        self.checked(self.subject >= o, greater_than_or_equal_to_text(o))
    }
}

/// Ordering assertions on a subject. Each one passes, leaving the chain as it was, or
/// ends the chain as failed with an expectation and the subject's rendering. Each returns
/// the same chain, for the next assertion.
pub trait OrderedSpec<T: OrderedValue>: Sized {
    /// The chain's state.
    spec fn chain(&self) -> ChainState;

    /// Asserts that the subject is less than `other`.
    fn is_less_than(&mut self, other: &T) -> (r: &mut Self)
        ensures
            r.chain() == old(self).chain().after_less_than(other.value()),
            *final(self) == *final(r),
    ;

    /// Asserts that the subject is less than or equal to `other`.
    fn is_less_than_or_equal_to(&mut self, other: &T) -> (r: &mut Self)
        ensures
            r.chain() == old(self).chain().after_less_than_or_equal_to(other.value()),
            *final(self) == *final(r),
    ;

    /// Asserts that the subject is greater than `other`.
    fn is_greater_than(&mut self, other: &T) -> (r: &mut Self)
        ensures
            r.chain() == old(self).chain().after_greater_than(other.value()),
            *final(self) == *final(r),
    ;

    /// Asserts that the subject is greater than or equal to `other`.
    fn is_greater_than_or_equal_to(&mut self, other: &T) -> (r: &mut Self)
        ensures
            r.chain() == old(self).chain().after_greater_than_or_equal_to(other.value()),
            *final(self) == *final(r),
    ;
}

impl<'s, T: OrderedValue> Spec<'s, T> {
    /// Records a failed check: the expectation, the subject between angle brackets, and
    /// the diagnostic of both. A chain that has already failed is left as it is.
    fn reject(&mut self, expectation: String)
        ensures
            final(self)@ == old(self)@.checked(false, expectation@),
            final(self).subject() == old(self).subject(),
    {
        if self.failure().is_none() {
            let mut actual = String::from_str("<");
            let shown = render(self.subject_ref());
            actual.append(shown.as_str());
            actual.append(">");
            self.with_expected(expectation).with_actual(actual).fail();
        }
    }
}

/// The expectation text: `lead`, then the rendering of `other` between angle brackets.
fn expectation<T: OrderedValue>(lead: &str, other: &T) -> (r: String)
    ensures
        r@ == lead@ + angled(decimal_text(other.value())),
{
    let mut text = String::from_str(lead);
    text.append("<");
    let shown = render(other);
    text.append(shown.as_str());
    text.append(">");
    assert(text@ =~= lead@ + angled(decimal_text(other.value())));
    text
}

impl<'s, T: OrderedValue> OrderedSpec<T> for Spec<'s, T> {
    open spec fn chain(&self) -> ChainState {
        self@
    }

    fn is_less_than(&mut self, other: &T) -> (r: &mut Self) {
        if self.subject_ref().wide() >= other.wide() {
            self.reject(expectation("value less than ", other));
        }
        self
    }

    fn is_less_than_or_equal_to(&mut self, other: &T) -> (r: &mut Self) {
        if self.subject_ref().wide() > other.wide() {
            self.reject(expectation("value less than or equal to ", other));
        }
        self
    }

    fn is_greater_than(&mut self, other: &T) -> (r: &mut Self) {
        if self.subject_ref().wide() <= other.wide() {
            self.reject(expectation("value greater than ", other));
        }
        self
    }

    fn is_greater_than_or_equal_to(&mut self, other: &T) -> (r: &mut Self) {
        if self.subject_ref().wide() < other.wide() {
            self.reject(expectation("value greater than or equal to ", other));
        }
        self
    }
}

} // verus!
