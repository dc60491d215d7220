use dangerous::expected::{Expected, ExpectedLength, ExpectedValid, ExpectedValue};
use dangerous::input::Input;
use dangerous::retry::RetryRequirement;
use dangerous::traits::{Details, FromContext, Invalid};

fn bytes_input(id: u64, data: &[u8]) -> Input {
    Input::new(id, 0, data.to_vec())
}

#[test]
fn retry_requirement_shortage() {
    let r = RetryRequirement::from_had_and_needed(2, 5).unwrap();
    assert_eq!(r.continue_after(), 3);
    let r = RetryRequirement::from_had_and_needed(0, 1).unwrap();
    assert_eq!(r.continue_after(), 1);
}

#[test]
fn retry_requirement_absent_when_enough() {
    assert!(RetryRequirement::from_had_and_needed(5, 5).is_none());
    assert!(RetryRequirement::from_had_and_needed(7, 5).is_none());
    assert!(RetryRequirement::from_had_and_needed(0, 0).is_none());
}

#[test]
fn retry_requirement_new_continue_after() {
    assert_eq!(RetryRequirement::new(4).continue_after(), 4);
}

#[test]
fn length_with_max_is_always_fatal() {
    let input = bytes_input(1, b"abcdef");
    let span = input.narrow(0, 1);
    // min far above what was found, yet max present: never recoverable.
    let err = ExpectedLength::new(100, Some(200), span, input, "take");
    assert!(err.is_fatal());
    assert!(err.retry_requirement().is_none());

    let input = bytes_input(1, b"abcdef");
    let span = input.narrow(0, 0);
    let err = ExpectedLength::new(0, Some(0), span, input, "take");
    assert!(err.is_fatal());
    assert!(err.retry_requirement().is_none());
}

#[test]
fn length_without_max_retries_by_shortage() {
    let input = bytes_input(1, b"abcdef");
    let span = input.narrow(0, 2);
    let err = ExpectedLength::new(5, None, span, input, "take");
    assert!(!err.is_fatal());
    assert_eq!(err.retry_requirement().unwrap().continue_after(), 3);

    let input = bytes_input(1, b"abcdef");
    let span = input.narrow(0, 6);
    let err = ExpectedLength::new(5, None, span, input, "take");
    assert!(err.retry_requirement().is_none());
}

#[test]
fn exactness_of_length_bounds() {
    let input = bytes_input(1, b"abcdef");
    let span = input.narrow(0, 1);
    let err = ExpectedLength::new(5, Some(5), span, input, "take");
    assert!(err.is_exact());
    assert_eq!(err.exact(), Some(5));
    assert_eq!(err.min(), 5);
    assert_eq!(err.max(), Some(5));

    let input = bytes_input(1, b"abcdef");
    let span = input.narrow(0, 1);
    let err = ExpectedLength::new(2, Some(5), span, input, "take");
    assert!(!err.is_exact());
    assert_eq!(err.exact(), None);

    let input = bytes_input(1, b"abcdef");
    let span = input.narrow(0, 1);
    let err = ExpectedLength::new(5, None, span, input, "take");
    assert!(!err.is_exact());
    assert_eq!(err.exact(), None);
    assert!(!err.is_fatal());
}

#[test]
fn value_error_retries_against_expected_length() {
    let input = bytes_input(1, b"12");
    let span = input.narrow(0, 2);
    let expected = bytes_input(9, b"1234");
    let err = ExpectedValue::new(expected, span, input, "consume");
    assert_eq!(err.retry_requirement().unwrap().continue_after(), 2);

    let input = bytes_input(1, b"1234");
    let span = input.narrow(0, 4);
    let expected = bytes_input(9, b"124");
    let err = ExpectedValue::new(expected, span, input, "consume");
    assert!(err.retry_requirement().is_none());
}

#[test]
fn valid_error_returns_supplied_retry() {
    let input = bytes_input(1, b"xyz");
    let span = input.narrow(0, 3);
    let retry = Some(RetryRequirement::new(7));
    let err = ExpectedValid::new(span, input, "decode", "ascii digit", retry);
    assert_eq!(err.retry_requirement().unwrap().continue_after(), 7);

    let input = bytes_input(1, b"xyz");
    let span = input.narrow(0, 3);
    let err = ExpectedValid::new(span, input, "decode", "ascii digit", None);
    assert!(err.retry_requirement().is_none());
}

#[test]
fn details_expose_span_input_and_context() {
    let input = bytes_input(1, b"hello<123>");
    let span = input.narrow(6, 9);
    let whole = input.clone();
    let err = ExpectedValue::new(bytes_input(9, b"124"), span, whole, "require equal");
    assert_eq!(err.context(), "require equal");
    assert_eq!(err.span().start_offset(), 6);
    assert_eq!(err.span().len(), 3);
    assert_eq!(err.input().len(), 10);
    assert_eq!(err.found_value().unwrap().as_dangerous(), &b"123"[..]);
    assert_eq!(err.expected_value().unwrap().as_dangerous(), &b"124"[..]);
    assert_eq!(err.expected().as_dangerous(), &b"124"[..]);
}

#[test]
fn context_wrap_with_equal_input_changes_nothing_visible() {
    let input = bytes_input(1, b"hello<123>");
    let span = input.narrow(6, 9);
    let whole = input.clone();
    let err = Expected::from(ExpectedValue::new(bytes_input(9, b"124"), span, whole, "require"));
    let same = input.clone();
    let wrapped = err.from_context(same, "outer");
    assert_eq!(wrapped.span().start_offset(), 6);
    assert_eq!(wrapped.span().len(), 3);
    assert_eq!(wrapped.found_value().unwrap().as_dangerous(), &b"123"[..]);
    assert_eq!(wrapped.input().start_offset(), 0);
    assert_eq!(wrapped.input().len(), 10);
    // Only the operation chain grows, innermost first.
    assert_eq!(wrapped.context(), "require");
    assert_eq!(wrapped.context_stack(), vec!["require", "outer"]);
}

#[test]
fn widening_applies_only_to_enclosing_ranges() {
    let whole = bytes_input(1, b"hello<123>");
    let narrow = whole.narrow(6, 9);
    let span = whole.narrow(6, 7);
    let err = Expected::from(ExpectedLength::new(5, None, span, narrow, "take"));
    assert_eq!(err.input().len(), 3);

    // A broader enclosing range: the input is widened to it.
    let wrapped = err.from_context(whole.clone(), "outer");
    assert_eq!(wrapped.input().start_offset(), 0);
    assert_eq!(wrapped.input().len(), 10);

    // An equal-valued range in another buffer: never "within", so unchanged.
    let foreign = bytes_input(2, b"hello<123>");
    let wrapped = wrapped.from_context(foreign, "outer again");
    assert_eq!(wrapped.input().len(), 10);
    assert_eq!(wrapped.input().buffer_id(), 1);

    // A narrower range of the same buffer: not enclosing, so unchanged.
    let whole2 = bytes_input(1, b"hello<123>");
    let smaller = whole2.narrow(6, 9);
    let wrapped = wrapped.from_context(smaller, "outer once more");
    assert_eq!(wrapped.input().len(), 10);
}

#[test]
fn wrapping_keeps_the_kind() {
    let input = bytes_input(1, b"ab");
    let span = input.narrow(0, 1);
    let err = Expected::from(ExpectedLength::new(2, None, span, input, "take"));
    let outer = bytes_input(1, b"ab");
    let wrapped = err.from_context(outer, "outer");
    match wrapped {
        Expected::Length(e) => {
            assert_eq!(e.min(), 2);
            assert_eq!(e.max(), None);
        },
        _ => panic!("wrapping must not change the kind"),
    }
}

#[test]
fn update_input_widens_in_place() {
    let whole = bytes_input(1, b"abcdef");
    let part = whole.narrow(1, 4);
    let span = whole.narrow(2, 3);
    let mut err = ExpectedValue::new(bytes_input(9, b"x"), span, part, "consume");
    assert_eq!(err.input().len(), 3);
    err.update_input(&whole);
    assert_eq!(err.input().len(), 6);
    assert_eq!(err.span().start_offset(), 2);
}

#[test]
fn invalid_collects_nothing() {
    let input = bytes_input(1, b"ab");
    let span = input.narrow(0, 1);
    let err: Invalid = Invalid::from(ExpectedLength::new(2, None, span, input, "take"));
    let wrapped = err.from_context(bytes_input(1, b"ab"), "outer");
    assert_eq!(wrapped, Invalid);
}

#[test]
fn expected_from_each_kind() {
    let input = bytes_input(1, b"ab");
    let span = input.narrow(0, 1);
    let err = Expected::from(ExpectedLength::new(2, None, span, input, "take"));
    assert!(matches!(err, Expected::Length(_)));

    let input = bytes_input(1, b"ab");
    let span = input.narrow(0, 1);
    let err = Expected::from(ExpectedValue::new(bytes_input(9, b"x"), span, input, "consume"));
    assert!(matches!(err, Expected::Value(_)));

    let input = bytes_input(1, b"ab");
    let span = input.narrow(0, 1);
    let err = Expected::from(ExpectedValid::new(span, input, "decode", "ascii digit", None));
    assert!(matches!(err, Expected::Valid(_)));
}
