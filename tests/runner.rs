use donkeytype::expected_input::ExpectedInput;
use donkeytype::runner::{time_left_message, InputMode, KeyCode, KeyPress, Runner, Step};
use donkeytype::stats::Stats;

fn key(c: char) -> KeyPress {
    KeyPress { code: KeyCode::Char(c), ctrl: false, alt: false }
}

fn code(code: KeyCode) -> KeyPress {
    KeyPress { code, ctrl: false, alt: false }
}

fn ctrl(c: char) -> KeyPress {
    KeyPress { code: KeyCode::Char(c), ctrl: true, alt: false }
}

fn started(corpus: &str, duration: u64) -> Runner<ExpectedInput> {
    let mut runner = Runner::new(duration, ExpectedInput::from_corpus(corpus));
    assert_eq!(runner.handle_key(key('s'), 0), Step::Continue);
    runner
}

fn type_text(runner: &mut Runner<ExpectedInput>, text: &str, now: u64) {
    for c in text.chars() {
        assert_eq!(runner.handle_key(key(c), now), Step::Continue);
    }
}

#[test]
fn should_render_single_line_input() {
    let mut runner = started("foobarbaaz", 30);
    type_text(&mut runner, "foo", 0);

    let layout = runner.layout(50);
    assert!(runner.shows_cursor());
    assert_eq!((39 + layout.line_offset, 1 + layout.line_index), (42, 1));
}

#[test]
fn should_render_multi_line_input() {
    let mut runner = started("foobarbazquxaboba", 30);
    type_text(&mut runner, "foobar", 0);

    let layout = runner.layout(50);
    assert_eq!(time_left_message(30), "30 seconds left");
    assert_eq!(runner.help_message(), "press 'Esc' to pause the test");
    assert_eq!(layout.already_typed, "foobar");
    assert_eq!(layout.current_line_rest, "bazquxaboba foobarbazquxaboba foobarbazquxab");
    assert_eq!(layout.following_lines, "oba foobarbazquxaboba foobarbazquxaboba foobarbazq");
    assert_eq!(runner.typed_marks(), vec![true; 6]);
}

#[test]
fn quit_before_start_cancels_with_zero_stats() {
    let mut runner = Runner::new(30, ExpectedInput::from_corpus("abc"));
    assert_eq!(runner.handle_key(key('q'), 5), Step::Cancelled(Stats::default()));
    assert_eq!(runner.mode(), InputMode::Cancelled);
    let zero = Stats::default();
    assert_eq!(zero.typed_characters_count, 0);
    assert_eq!(zero.wpm.numerator, 0);
    assert_eq!(zero.accuracy.numerator, 0);
    assert_eq!(zero.raw_accuracy.numerator, 0);
}

#[test]
fn pause_and_resume_keep_raw_counts() {
    let mut runner = started("abc", 30);
    type_text(&mut runner, "abx", 1_000);
    assert_eq!(runner.raw_counts(), (2, 1));
    runner.handle_key(code(KeyCode::Esc), 2_000);
    assert_eq!(runner.mode(), InputMode::Paused);
    runner.handle_key(key('s'), 9_000);
    assert_eq!(runner.mode(), InputMode::Running);
    assert_eq!(runner.raw_counts(), (2, 1));
    assert_eq!(runner.input(), "abx");
}

#[test]
fn keys_while_paused_are_not_typed() {
    let mut runner = Runner::new(30, ExpectedInput::from_corpus("abc"));
    type_text(&mut runner, "abc", 0);
    assert_eq!(runner.input(), "");
    assert_eq!(runner.raw_counts(), (0, 0));
    assert_eq!(runner.help_message(), "press 's' to start the test, press 'q' to quit");
}

#[test]
fn quit_key_while_running_is_typed() {
    let mut runner = started("q", 30);
    type_text(&mut runner, "q", 0);
    assert_eq!(runner.mode(), InputMode::Running);
    assert_eq!(runner.input(), "q");
    assert_eq!(runner.raw_counts(), (1, 0));
}

#[test]
fn backspace_removes_last_char_and_keeps_raw_counts() {
    let mut runner = started("abc", 30);
    type_text(&mut runner, "ax", 0);
    runner.handle_key(code(KeyCode::Backspace), 0);
    assert_eq!(runner.input(), "a");
    assert_eq!(runner.raw_counts(), (1, 1));
    runner.handle_key(code(KeyCode::Backspace), 0);
    runner.handle_key(code(KeyCode::Backspace), 0);
    assert_eq!(runner.input(), "");
}

#[test]
fn word_delete_keys() {
    let mut runner = started("foo bar baz", 30);
    type_text(&mut runner, "foo bar", 0);
    runner.handle_key(ctrl('w'), 0);
    assert_eq!(runner.input(), "foo ");
    type_text(&mut runner, "bar", 0);
    runner.handle_key(ctrl('h'), 0);
    assert_eq!(runner.input(), "foo ");
    type_text(&mut runner, "bar", 0);
    runner.handle_key(KeyPress { code: KeyCode::Backspace, ctrl: false, alt: true }, 0);
    assert_eq!(runner.input(), "foo ");
    runner.handle_key(KeyPress { code: KeyCode::Backspace, ctrl: true, alt: false }, 0);
    assert_eq!(runner.input(), "");
    assert_eq!(runner.raw_counts(), (13, 0));
}

#[test]
fn multibyte_input_is_compared_by_character() {
    let mut runner = started("Բարեւ Ձեզ", 30);
    type_text(&mut runner, "Բարեւ", 0);
    assert_eq!(runner.raw_counts(), (5, 0));
    assert_eq!(runner.typed_marks(), vec![true; 5]);
}

#[test]
fn session_finishes_when_time_runs_out() {
    let mut runner = started("abc", 60);
    type_text(&mut runner, "abc", 10_000);
    assert_eq!(runner.check_timeout(59_999), Step::Continue);
    assert_eq!(runner.time_left_secs(59_999), 0);
    assert_eq!(runner.time_left_secs(30_000), 30);
    match runner.check_timeout(60_000) {
        Step::Finished(stats) => {
            assert_eq!(stats.typed_characters_count, 3);
            assert_eq!(stats.valid_characters_count, 3);
            assert_eq!(stats.mistakes_count, 0);
            assert_eq!(stats.raw_typed_characters_count, 3);
        }
        other => panic!("expected a finished session, got {:?}", other),
    }
    assert_eq!(runner.mode(), InputMode::Finished);
    assert_eq!(runner.time_left_secs(70_000), 0);
}

#[test]
fn pause_excludes_paused_time() {
    let mut runner = started("abc", 30);
    runner.handle_key(code(KeyCode::Esc), 10_000);
    assert_eq!(runner.time_left_secs(25_000), 20);
    assert_eq!(runner.help_message(), "press 's' to unpause the test, press 'q' to quit");
    runner.handle_key(key('s'), 25_000);
    assert_eq!(runner.time_left_secs(25_000), 20);
    assert_eq!(runner.check_timeout(44_999), Step::Continue);
    assert!(matches!(runner.check_timeout(45_000), Step::Finished(_)));
}

#[test]
fn paused_session_never_times_out() {
    let mut runner = started("abc", 1);
    runner.handle_key(code(KeyCode::Esc), 100);
    assert_eq!(runner.check_timeout(1_000_000), Step::Continue);
    let fresh = Runner::new(30, ExpectedInput::from_corpus("abc"));
    assert_eq!(fresh.time_left_secs(123_456), 30);
}

#[test]
fn time_left_labels() {
    assert_eq!(time_left_message(1), "1 second left");
    assert_eq!(time_left_message(0), "0 seconds left");
    assert_eq!(time_left_message(120), "120 seconds left");
}

#[test]
fn cursor_only_while_running() {
    let mut runner = Runner::new(30, ExpectedInput::from_corpus("abc"));
    assert!(!runner.shows_cursor());
    runner.handle_key(key('s'), 0);
    assert!(runner.shows_cursor());
    assert!(runner.is_started());
}
