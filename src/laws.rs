//! Properties of the ordering assertions, stated over the chain state that their
//! contracts speak of.

use vstd::prelude::*;
use crate::numeric::{
    less_than_text,
    less_than_or_equal_to_text,
    greater_than_text,
    greater_than_or_equal_to_text,
};
use crate::render::decimal_text;
use crate::subject::{ChainState, angled, report};

verus! {

/// The state of a fresh chain on `subject` after one check failed with `expectation`.
pub open spec fn failed_with(subject: int, expectation: Seq<char>) -> ChainState {
    let actual = angled(decimal_text(subject));
    ChainState {
        subject,
        expected: Some(expectation),
        actual: Some(actual),
        failure: Some(report(Some(expectation), Some(actual))),
    }
}

/// When `a < b`, `is_less_than(b)` passes on subject `a`; on subject `b`, `is_less_than(a)`
/// fails, expecting a value less than `<a>` and showing `<b>`.
pub proof fn less_than_law(a: int, b: int)
    requires
        a < b,
    ensures
        ChainState::fresh(a).after_less_than(b) == ChainState::fresh(a),
        ChainState::fresh(b).after_less_than(a) == failed_with(b, less_than_text(a)),
{
}

/// `is_less_than_or_equal_to` passes when subject and bound are the same value.
pub proof fn less_than_or_equal_to_reflexive(a: int)
    ensures
        ChainState::fresh(a).after_less_than_or_equal_to(a) == ChainState::fresh(a),
{
}

/// When `a > b`, `is_greater_than(b)` passes on subject `a`; on subject `b`,
/// `is_greater_than(a)` fails, expecting a value greater than `<a>` and showing `<b>`.
pub proof fn greater_than_law(a: int, b: int)
    requires
        a > b,
    ensures
        ChainState::fresh(a).after_greater_than(b) == ChainState::fresh(a),
        ChainState::fresh(b).after_greater_than(a) == failed_with(b, greater_than_text(a)),
{
}

/// `is_greater_than_or_equal_to` passes when subject and bound are the same value.
pub proof fn greater_than_or_equal_to_reflexive(a: int)
    ensures
        ChainState::fresh(a).after_greater_than_or_equal_to(a) == ChainState::fresh(a),
{
}

/// A passing check hands back the chain unchanged, so a following check on the same
/// subject goes on from where it stood: `is_greater_than_or_equal_to(lo)` then
/// `is_less_than(hi)` both pass on a subject `s` with `lo <= s < hi`.
pub proof fn chaining_law(s: int, lo: int, hi: int)
    requires
        lo <= s < hi,
    ensures
        ChainState::fresh(s).after_greater_than_or_equal_to(lo) == ChainState::fresh(s),
        ChainState::fresh(s).after_greater_than_or_equal_to(lo).after_less_than(hi)
            == ChainState::fresh(s),
{
}

} // verus!
