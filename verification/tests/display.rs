use dangerous::expected::{Expected, ExpectedLength, ExpectedValid, ExpectedValue};
use dangerous::input::Input;
use dangerous::traits::{Details, FromContext};

fn bytes_input(id: u64, data: &[u8]) -> Input {
    Input::new(id, 0, data.to_vec())
}

fn length_error(min: usize, max: Option<usize>, have: usize) -> ExpectedLength {
    let input = bytes_input(1, &vec![b'a'; 16]);
    let span = input.narrow(0, have);
    ExpectedLength::new(min, max, span, input, "take")
}

#[test]
fn description_at_most() {
    let desc = length_error(0, Some(5), 7).description();
    assert_eq!(desc, "found 7 bytes when at most 5 bytes was expected");
}

#[test]
fn description_at_least() {
    let desc = length_error(5, None, 2).description();
    assert_eq!(desc, "found 2 bytes when at least 5 bytes was expected");
}

#[test]
fn description_exactly() {
    let desc = length_error(5, Some(5), 2).description();
    assert_eq!(desc, "found 2 bytes when exactly 5 bytes was expected");
}

#[test]
fn description_both_bounds() {
    let desc = length_error(2, Some(5), 7).description();
    assert_eq!(desc, "found 7 bytes when at least 2 bytes and at most 5 bytes was expected");
}

#[test]
fn description_byte_count_edges() {
    let desc = length_error(1, None, 0).description();
    assert_eq!(desc, "found no bytes when at least 1 byte was expected");
    let desc = length_error(12, None, 1).description();
    assert_eq!(desc, "found 1 byte when at least 12 bytes was expected");
}

#[test]
fn description_of_value_and_valid_errors() {
    let input = bytes_input(1, b"12");
    let span = input.narrow(0, 2);
    let err = ExpectedValue::new(bytes_input(9, b"34"), span, input, "consume");
    assert_eq!(err.description(), "found a different value to the exact expected");

    let input = bytes_input(1, b"12");
    let span = input.narrow(0, 2);
    let err = ExpectedValid::new(span, input, "decode", "ascii digit", None);
    assert_eq!(err.description(), "invalid ascii digit");
}

#[test]
fn report_shows_description_offsets_values_and_contexts() {
    let whole = bytes_input(1, b"hello<123>");
    let span = whole.narrow(6, 9);
    let input = whole.clone();
    let err = Expected::from(ExpectedValue::new(bytes_input(9, b"124"), span, input, "require"));
    let err = err.from_context(whole, "read protocol");
    let report = err.display();
    assert!(report.starts_with("error: found a different value to the exact expected"));
    assert!(report.contains("at offset 6, length 3"));
    assert!(report.contains("found: '123'"));
    assert!(report.contains("expected: '124'"));
    assert!(report.contains("in: require"));
    assert!(report.ends_with("in: read protocol"));
}

#[test]
fn report_offsets_are_relative_to_the_full_input() {
    let whole = bytes_input(1, b"abcdefgh");
    let part = whole.narrow(2, 8);
    let span = whole.narrow(4, 6);
    let err = ExpectedLength::new(9, None, span, part, "take");
    // Within the narrowed input the span begins at its third byte.
    assert!(err.display().contains("at offset 2, length 2"));
    let mut err = err;
    err.update_input(&whole);
    // Widened to the whole buffer, the same span begins at its fifth byte.
    assert!(err.display().contains("at offset 4, length 2"));
}

#[test]
fn report_escapes_unprintable_bytes() {
    let whole = bytes_input(1, &[0x00, b'a', 0x7f, b'\'', b'\\']);
    let span = whole.narrow(0, 5);
    let input = whole.clone();
    let err = ExpectedValue::new(bytes_input(9, b"ok"), span, input, "consume");
    let report = err.display();
    assert!(report.contains("found: '\\x00a\\x7f\\x27\\x5c'"));
}

#[test]
fn rendering_is_stable() {
    let whole = bytes_input(1, b"hello<123>");
    let span = whole.narrow(6, 9);
    let input = whole.clone();
    let err = Expected::from(ExpectedValue::new(bytes_input(9, b"124"), span, input, "require"));
    let err = err.from_context(whole, "read protocol");
    let first = err.display();
    let second = err.display();
    assert_eq!(first, second);

    let len_err = length_error(2, Some(5), 7);
    assert_eq!(len_err.display(), len_err.display());

    let input = bytes_input(1, b"12");
    let span = input.narrow(0, 2);
    let valid_err = ExpectedValid::new(span, input, "decode", "ascii digit", None);
    assert_eq!(valid_err.display(), valid_err.display());
}
