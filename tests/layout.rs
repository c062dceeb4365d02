use donkeytype::expected_input::ExpectedInput;
use donkeytype::layout::line_wrap_layout;

#[test]
fn already_typed_matches_typed_length() {
    let expected = ExpectedInput::from_corpus("Բարեւ Ձեզ abc");
    for width in 1..12usize {
        for typed in 0..40usize {
            let layout = line_wrap_layout(&expected, typed, width);
            assert_eq!(layout.already_typed.chars().count(), typed);
            assert_eq!(layout.current_line_rest.chars().count(), width - typed % width);
            assert_eq!(layout.following_lines.chars().count(), width);
            assert_eq!(layout.line_index, typed / width);
            assert_eq!(layout.line_offset, typed % width);
        }
    }
}

#[test]
fn layout_at_wrap_boundary() {
    let expected = ExpectedInput::from_corpus("abc");
    let layout = line_wrap_layout(&expected, 4, 4);
    assert_eq!(layout.already_typed, "abc ");
    assert_eq!(layout.current_line_rest, "abc ");
    assert_eq!(layout.following_lines, "abc ");
    assert_eq!((layout.line_index, layout.line_offset), (1, 0));
}

#[test]
fn layout_with_nothing_typed() {
    let expected = ExpectedInput::from_corpus("abcdef");
    let layout = line_wrap_layout(&expected, 0, 3);
    assert_eq!(layout.already_typed, "");
    assert_eq!(layout.current_line_rest, "abc");
    assert_eq!(layout.following_lines, "def");
}
