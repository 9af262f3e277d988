use spectral::numeric::OrderedSpec;
use spectral::render::{decimal, render};
use spectral::subject::{assert_that, diagnostic};

#[test]
fn passing_check_records_nothing() {
    let subject: i64 = 1;
    let mut spec = assert_that(&subject);
    spec.is_less_than(&2);
    assert!(spec.failure().is_none());
    assert_eq!(*spec.subject_ref(), 1);
}

#[test]
fn less_than_fails_on_equal_values() {
    let mut spec = assert_that(&2);
    spec.is_less_than(&2);
    assert_eq!(
        spec.failure().map(|m| m.as_str()),
        Some("\n\texpected: value less than <2>\n\t but was: <2>")
    );
}

#[test]
fn greater_than_fails_on_equal_values() {
    let mut spec = assert_that(&7u8);
    spec.is_greater_than(&7u8);
    assert_eq!(
        spec.failure().map(|m| m.as_str()),
        Some("\n\texpected: value greater than <7>\n\t but was: <7>")
    );
}

#[test]
fn reversed_less_than_reports_both_values() {
    let mut spec = assert_that(&3);
    spec.is_less_than(&2);
    assert_eq!(
        spec.failure().map(|m| m.as_str()),
        Some("\n\texpected: value less than <2>\n\t but was: <3>")
    );
}

#[test]
fn reflexive_bounds_pass() {
    let mut low = assert_that(&-40i32);
    low.is_less_than_or_equal_to(&-40);
    low.is_greater_than_or_equal_to(&-40);
    assert!(low.failure().is_none());
}

#[test]
fn chained_checks_both_pass() {
    let mut spec = assert_that(&5);
    spec.is_greater_than_or_equal_to(&5).is_less_than(&6);
    assert!(spec.failure().is_none());
}

#[test]
fn first_failure_in_a_chain_stands() {
    let mut spec = assert_that(&10);
    spec.is_less_than(&4).is_greater_than(&20);
    assert_eq!(
        spec.failure().map(|m| m.as_str()),
        Some("\n\texpected: value less than <4>\n\t but was: <10>")
    );
}

#[test]
fn failure_after_passing_check_is_reported() {
    let mut spec = assert_that(&10);
    spec.is_greater_than(&4).is_less_than_or_equal_to(&9);
    assert_eq!(
        spec.failure().map(|m| m.as_str()),
        Some("\n\texpected: value less than or equal to <9>\n\t but was: <10>")
    );
}

#[test]
fn negative_values_render_with_sign() {
    let mut spec = assert_that(&-15i64);
    spec.is_greater_than_or_equal_to(&-3);
    assert_eq!(
        spec.failure().map(|m| m.as_str()),
        Some("\n\texpected: value greater than or equal to <-3>\n\t but was: <-15>")
    );
}

#[test]
fn extreme_values_render_as_debug_does() {
    assert_eq!(decimal(i128::MIN), format!("{:?}", i128::MIN));
    assert_eq!(decimal(i128::MAX), format!("{:?}", i128::MAX));
    assert_eq!(decimal(0), "0");
    assert_eq!(decimal(-7), "-7");
    assert_eq!(render(&u64::MAX), "18446744073709551615");
    assert_eq!(render(&i8::MIN), "-128");
    assert_eq!(render(&usize::MAX), format!("{:?}", usize::MAX));
}

#[test]
fn unsigned_extremes_compare_correctly() {
    let mut spec = assert_that(&u64::MAX);
    spec.is_greater_than(&0).is_greater_than_or_equal_to(&u64::MAX);
    assert!(spec.failure().is_none());
    spec.is_less_than(&u64::MAX);
    assert_eq!(
        spec.failure().map(|m| m.as_str()),
        Some("\n\texpected: value less than <18446744073709551615>\n\t but was: <18446744073709551615>")
    );
}

#[test]
fn fail_without_texts_reports_empty_descriptions() {
    let mut spec = assert_that(&1);
    spec.fail();
    assert_eq!(
        spec.failure().map(|m| m.as_str()),
        Some("\n\texpected: \n\t but was: ")
    );
}

#[test]
fn fail_reports_the_texts_that_were_set() {
    let mut spec = assert_that(&1);
    spec.with_expected(String::from("one thing"))
        .with_actual(String::from("another"))
        .fail();
    assert_eq!(
        spec.failure().map(|m| m.as_str()),
        Some("\n\texpected: one thing\n\t but was: another")
    );
}

#[test]
fn later_texts_overwrite_earlier_ones() {
    let mut spec = assert_that(&1);
    spec.with_expected(String::from("first"))
        .with_expected(String::from("second"))
        .with_actual(String::from("x"))
        .fail();
    assert_eq!(
        spec.failure().map(|m| m.as_str()),
        Some("\n\texpected: second\n\t but was: x")
    );
}

#[test]
fn diagnostic_joins_two_lines() {
    let text = diagnostic(&Some(String::from("a")), &None);
    assert_eq!(text, "\n\texpected: a\n\t but was: ");
}
