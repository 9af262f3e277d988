//! Fluent ordering assertions over a borrowed subject.
//!
//! A chain is opened on a subject with `assert_that` and checked with the ordering
//! assertions of `OrderedSpec`. A check that fails records its expectation, the subject's
//! rendering and the two-line diagnostic made of both, and ends the chain: later checks
//! leave it as it is. Turning a failed chain into the abort of the current test is the
//! test runner's part.

pub mod render;
pub mod subject;
pub mod numeric;
pub mod laws;
