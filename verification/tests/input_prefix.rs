use dangerous::input::{Input, Text};
use dangerous::prefix::Prefix;

fn bytes_input(id: u64, data: &[u8]) -> Input {
    Input::new(id, 0, data.to_vec())
}

#[test]
fn narrowing_tracks_the_original_buffer() {
    let whole = bytes_input(1, b"hello<123>");
    assert_eq!(whole.len(), 10);
    assert!(!whole.is_empty());
    assert_eq!(whole.buffer_id(), 1);
    let part = whole.narrow(6, 9);
    assert_eq!(part.start_offset(), 6);
    assert_eq!(part.len(), 3);
    assert_eq!(part.as_dangerous(), &b"123"[..]);
    let inner = part.narrow(1, 3);
    assert_eq!(inner.start_offset(), 7);
    assert_eq!(inner.as_dangerous(), &b"23"[..]);
    assert!(inner.is_within(&part));
    assert!(inner.is_within(&whole));
}

#[test]
fn containment_is_offset_inclusion_not_value_equality() {
    let whole = bytes_input(1, b"abab");
    let first = whole.narrow(0, 2);
    let second = whole.narrow(2, 4);
    // Equal-valued, differently-located ranges are never within each other.
    assert_eq!(first.as_dangerous(), second.as_dangerous());
    assert!(!first.is_within(&second));
    assert!(!second.is_within(&first));
    // Every range is within itself and within an enclosing range.
    assert!(first.is_within(&first));
    assert!(first.is_within(&whole));
    assert!(!whole.is_within(&first));
    // Ranges of different buffers are never within each other.
    let other = bytes_input(2, b"abab");
    assert!(!first.is_within(&other));
}

#[test]
fn text_views_characters() {
    let text = Text::new(1, 0, vec!['a', 'b', 'c']);
    assert_eq!(text.len(), 3);
    assert!(!text.is_empty());
    assert_eq!(text.as_dangerous(), &['a', 'b', 'c'][..]);
    let part = text.narrow(1, 3);
    assert_eq!(part.start_offset(), 1);
    assert_eq!(part.as_dangerous(), &['b', 'c'][..]);
    assert!(part.is_within(&text));
    assert!(!text.is_within(&part));
}

#[test]
fn byte_prefix_of_bytes() {
    let input = bytes_input(1, b"hello");
    assert!(b'h'.is_prefix_of(&input));
    assert!(!b'e'.is_prefix_of(&input));
    let empty = bytes_input(1, b"");
    assert!(!b'h'.is_prefix_of(&empty));
}

#[test]
fn char_prefix_of_text() {
    let text = Text::new(1, 0, vec!['\u{e9}', 'x']);
    assert!('\u{e9}'.is_prefix_of(&text));
    assert!(!'x'.is_prefix_of(&text));
    let empty = Text::new(1, 0, Vec::new());
    assert!(!'x'.is_prefix_of(&empty));
}

#[test]
fn char_prefix_of_bytes_through_its_encoding() {
    // '\u{e9}' encodes to the two bytes 0xC3 0xA9.
    let input = bytes_input(1, &[0xC3, 0xA9, b'!']);
    assert!('\u{e9}'.is_prefix_of(&input));
    assert!(!'\u{e8}'.is_prefix_of(&input));
    // A one-byte encoding still has to be present in full.
    let input = bytes_input(1, &[0xC3]);
    assert!(!'\u{e9}'.is_prefix_of(&input));
}

#[test]
fn wide_char_prefixes_of_bytes() {
    // Three-byte encoding: U+20AC is E2 82 AC.
    let input = bytes_input(1, &[0xE2, 0x82, 0xAC, b'9']);
    assert!('\u{20ac}'.is_prefix_of(&input));
    assert!(!'\u{20ad}'.is_prefix_of(&input));
    // Four-byte encoding: U+1F600 is F0 9F 98 80.
    let input = bytes_input(1, &[0xF0, 0x9F, 0x98, 0x80]);
    assert!('\u{1f600}'.is_prefix_of(&input));
    assert!(!'\u{1f601}'.is_prefix_of(&input));
}

#[test]
fn slice_prefixes_of_bytes() {
    let input = bytes_input(1, b"hello");
    assert!((&b"he"[..]).is_prefix_of(&input));
    assert!((&b"hello"[..]).is_prefix_of(&input));
    assert!(!(&b"hello!"[..]).is_prefix_of(&input));
    assert!(!(&b"llo"[..]).is_prefix_of(&input));
}

#[test]
fn string_prefixes() {
    let input = bytes_input(1, b"hello");
    assert!("he".is_prefix_of(&input));
    assert!(!"llo".is_prefix_of(&input));
    let text = Text::new(1, 0, vec!['h', 'e', 'l', 'l', 'o']);
    assert!("he".is_prefix_of(&text));
    assert!(!"llo".is_prefix_of(&text));
    assert!(!"helloo".is_prefix_of(&text));
}

#[test]
fn array_and_reference_prefixes() {
    let input = bytes_input(1, b"hello");
    assert!(b"he".is_prefix_of(&input));
    assert!(!b"xe".is_prefix_of(&input));
    assert!((&b'h').is_prefix_of(&input));
    assert!((&"he").is_prefix_of(&input));
}
