//! The session engine: a state machine that takes key presses and clock
//! ticks, keeps the typed input and the raw keystroke counters, and ends in
//! a finished or a cancelled session.
//!
//! Time is given to the engine as a count of milliseconds on a monotonic
//! clock; the caller polls for keys and draws.

use vstd::prelude::*;

use crate::expected_input::{text_prefix, ExpectedInputInterface};
use crate::helpers::{
    chars_of, decimal, push_decimal, remove_last_word, string_from_chars, without_last_word,
};
use crate::layout::{is_line_wrap, line_wrap_layout, LineWrap};
use crate::stats::{calculate_stats, stats_of, zero_stats, Stats};

verus! {

/// The state of a session.
#[derive(Clone, Copy, Debug, PartialEq, Eq, Structural)]
pub enum InputMode {
    /// Waiting for the start key, before the session starts or while it is paused.
    Paused,
    /// Keys are typed into the input and the clock runs.
    Running,
    /// The duration has run out.
    Finished,
    /// The user quit.
    Cancelled,
}

/// The key of a key press.
#[derive(Clone, Copy, Debug, PartialEq, Eq, Structural)]
pub enum KeyCode {
    Char(char),
    Backspace,
    Esc,
    /// Any key the engine does not react to.
    Other,
}

/// A key press with the modifiers the engine looks at.
#[derive(Clone, Copy, Debug, PartialEq, Eq, Structural)]
pub struct KeyPress {
    pub code: KeyCode,
    pub ctrl: bool,
    pub alt: bool,
}

/// What a key press or a tick did to the session.
#[derive(Clone, Copy, Debug, PartialEq, Eq, Structural)]
pub enum Step {
    /// The session goes on.
    Continue,
    /// The duration ran out; the statistics of the session.
    Finished(Stats),
    /// The user quit; the statistics are all zero.
    Cancelled(Stats),
}

/// The abstract state of a session.
pub struct SessionState {
    pub mode: InputMode,
    pub input: Seq<char>,
    pub is_started: bool,
    /// Clock reading at the start, moved later by every pause.
    pub start_time: u64,
    /// Clock reading at the last pause.
    pub pause_time: u64,
    pub raw_valid: u64,
    pub raw_mistakes: u64,
    pub duration_secs: u64,
}

/// Milliseconds from `since` to `now`, zero when the clock reads earlier.
pub open spec fn elapsed(now: u64, since: u64) -> nat {
    if now >= since {
        (now - since) as nat
    } else {
        0
    }
}

/// `a - b`, or zero when `b` is larger.
pub open spec fn clamped_sub(a: nat, b: nat) -> nat {
    if a >= b {
        (a - b) as nat
    } else {
        0
    }
}

/// `a + b`, or `u64::MAX` when the sum does not fit.
pub open spec fn saturated_add(a: u64, b: nat) -> u64 {
    if a + b <= u64::MAX {
        (a + b) as u64
    } else {
        u64::MAX
    }
}

/// Whether the key press deletes the last word: ctrl+backspace, alt+backspace,
/// or the ctrl+h and ctrl+w that terminals send for ctrl+backspace.
pub open spec fn is_word_delete(key: KeyPress) -> bool {
    match key.code {
        KeyCode::Char(c) => key.ctrl && (c == 'h' || c == 'w'),
        KeyCode::Backspace => key.ctrl || key.alt,
        _ => false,
    }
}

/// The state after `key` is pressed at clock reading `now`, where `expected`
/// gives the reference character at each position.
pub open spec fn after_key(
    s: SessionState,
    key: KeyPress,
    now: u64,
    expected: spec_fn(nat) -> char,
) -> SessionState {
    match s.mode {
        InputMode::Paused => match key.code {
            KeyCode::Char('s') => SessionState {
                mode: InputMode::Running,
                is_started: true,
                start_time: if s.is_started {
                    saturated_add(s.start_time, elapsed(now, s.pause_time))
                } else {
                    now
                },
                ..s
            },
            KeyCode::Char('q') => SessionState { mode: InputMode::Cancelled, ..s },
            _ => s,
        },
        InputMode::Running => {
            if is_word_delete(key) {
                SessionState { input: without_last_word(s.input), ..s }
            } else {
                match key.code {
                    KeyCode::Char(c) => {
                        if c == expected(s.input.len()) {
                            SessionState {
                                input: s.input.push(c),
                                raw_valid: (s.raw_valid + 1) as u64,
                                ..s
                            }
                        } else {
                            SessionState {
                                input: s.input.push(c),
                                raw_mistakes: (s.raw_mistakes + 1) as u64,
                                ..s
                            }
                        }
                    },
                    KeyCode::Backspace => {
                        if s.input.len() > 0 {
                            SessionState { input: s.input.drop_last(), ..s }
                        } else {
                            s
                        }
                    },
                    KeyCode::Esc => SessionState { mode: InputMode::Paused, pause_time: now, ..s },
                    KeyCode::Other => s,
                }
            }
        },
        _ => s,
    }
}

/// What a key press reports: a cancelled session when quit is pressed while
/// paused, otherwise nothing.
pub open spec fn key_step(s: SessionState, key: KeyPress) -> Step {
    if s.mode == InputMode::Paused && key.code == KeyCode::Char('q') {
        Step::Cancelled(zero_stats())
    } else {
        Step::Continue
    }
}

/// Whether the running session has used up its duration at clock reading `now`.
pub open spec fn timed_out(s: SessionState, now: u64) -> bool {
    &&& s.mode == InputMode::Running
    &&& s.is_started
    &&& elapsed(now, s.start_time) >= 1000 * s.duration_secs
}

/// Whole seconds left at clock reading `now`.
pub open spec fn seconds_left(s: SessionState, now: u64) -> nat {
    match s.mode {
        InputMode::Paused => if s.is_started {
            clamped_sub(
                (1000 * s.duration_secs) as nat,
                clamped_sub(elapsed(now, s.start_time), elapsed(now, s.pause_time)),
            ) / 1000
        } else {
            s.duration_secs as nat
        },
        InputMode::Running => clamped_sub((1000 * s.duration_secs) as nat, elapsed(now, s.start_time))
            / 1000,
        _ => 0,
    }
}

/// The help line shown in state `s`.
pub open spec fn help_text(s: SessionState) -> Seq<char> {
    match s.mode {
        InputMode::Paused => if s.is_started {
            "press 's' to unpause the test, press 'q' to quit"@
        } else {
            "press 's' to start the test, press 'q' to quit"@
        },
        InputMode::Running => "press 'Esc' to pause the test"@,
        _ => ""@,
    }
}

/// The label of the time left: `"1 second left"`, `"30 seconds left"`.
pub open spec fn time_left_text(secs: u64) -> Seq<char> {
    decimal(secs as nat) + if secs == 1 {
        " second left"@
    } else {
        " seconds left"@
    }
}

/// The label of `secs` seconds left.
pub fn time_left_message(secs: u64) -> (r: String)
    ensures
        r@ == time_left_text(secs),
{
    let mut s = String::new();
    push_decimal(&mut s, secs);
    if secs == 1 {
        s.append(" second left");
    } else {
        s.append(" seconds left");
    }
    s
}

/// The state of a new session of `duration_secs` seconds.
pub open spec fn initial_state(duration_secs: u64) -> SessionState {
    SessionState {
        mode: InputMode::Paused,
        input: Seq::empty(),
        is_started: false,
        start_time: 0,
        pause_time: 0,
        raw_valid: 0,
        raw_mistakes: 0,
        duration_secs,
    }
}

/// Keystrokes typed while running, each counted as valid or as a mistake
/// when it was typed; corrections never lower them.
pub struct RawCounters {
    valid: u64,
    mistakes: u64,
}

impl RawCounters {
    #[verifier::type_invariant]
    spec fn total_fits(&self) -> bool {
        self.valid + self.mistakes <= u64::MAX
    }

    pub closed spec fn valid(&self) -> u64 {
        self.valid
    }

    pub closed spec fn mistakes(&self) -> u64 {
        self.mistakes
    }

    pub fn new() -> (r: RawCounters)
        ensures
            r.valid() == 0,
            r.mistakes() == 0,
    {
        RawCounters { valid: 0, mistakes: 0 }
    }

    /// Counts one keystroke, as valid when `correct` holds.
    pub fn record(&mut self, correct: bool)
        requires
            old(self).valid() + old(self).mistakes() < u64::MAX,
        ensures
            final(self).valid() == old(self).valid() + if correct {
                1int
            } else {
                0int
            },
            final(self).mistakes() == old(self).mistakes() + if correct {
                0int
            } else {
                1int
            },
    {
        if correct {
            self.valid = self.valid + 1;
        } else {
            self.mistakes = self.mistakes + 1;
        }
    }

    /// The two counts, which always add up to a `u64`.
    pub fn counts(&self) -> (r: (u64, u64))
        ensures
            r == (self.valid(), self.mistakes()),
            r.0 + r.1 <= u64::MAX,
    {
        proof {
            use_type_invariant(self);
        }
        (self.valid, self.mistakes)
    }
}

/// A typing session over the reference text of `E`.
pub struct Runner<E: ExpectedInputInterface> {
    input: Vec<char>,
    input_mode: InputMode,
    duration_secs: u64,
    expected_input: E,
    raw_counts: RawCounters,
    is_started: bool,
    start_time: u64,
    pause_time: u64,
}

impl<E: ExpectedInputInterface> View for Runner<E> {
    type V = SessionState;

    closed spec fn view(&self) -> SessionState {
        SessionState {
            mode: self.input_mode,
            input: self.input@,
            is_started: self.is_started,
            start_time: self.start_time,
            pause_time: self.pause_time,
            raw_valid: self.raw_counts.valid(),
            raw_mistakes: self.raw_counts.mistakes(),
            duration_secs: self.duration_secs,
        }
    }
}

impl<E: ExpectedInputInterface> Runner<E> {
    /// The reference text of the session.
    pub closed spec fn source(&self) -> E {
        self.expected_input
    }

    /// The reference character at each position.
    pub open spec fn expected(&self) -> spec_fn(nat) -> char {
        |i: nat| self.source().char_at(i)
    }

    /// A paused, not yet started session of `duration_secs` seconds over the
    /// text of `expected_input`.
    pub fn new(duration_secs: u64, expected_input: E) -> (r: Self)
        ensures
            r@ == initial_state(duration_secs),
            r.source() == expected_input,
    {
        let r = Runner {
            input: Vec::new(),
            input_mode: InputMode::Paused,
            duration_secs,
            expected_input,
            raw_counts: RawCounters::new(),
            is_started: false,
            start_time: 0,
            pause_time: 0,
        };
        assert(r@.input =~= Seq::empty());
        r
    }

    /// Handles a key pressed at clock reading `now`.
    pub fn handle_key(&mut self, key: KeyPress, now: u64) -> (r: Step)
        requires
            old(self)@.raw_valid + old(self)@.raw_mistakes < u64::MAX,
        ensures
            final(self)@ == after_key(old(self)@, key, now, old(self).expected()),
            final(self).source() == old(self).source(),
            r == key_step(old(self)@, key),
    {
        match self.input_mode {
            InputMode::Paused => match key.code {
                KeyCode::Char('s') => {
                    if self.is_started {
                        let paused_for = if now >= self.pause_time {
                            now - self.pause_time
                        } else {
                            0
                        };
                        self.start_time = self.start_time.saturating_add(paused_for);
                    } else {
                        self.start_time = now;
                    }
                    self.is_started = true;
                    self.input_mode = InputMode::Running;
                    Step::Continue
                },
                KeyCode::Char('q') => {
                    self.input_mode = InputMode::Cancelled;
                    Step::Cancelled(Stats::default())
                },
                _ => Step::Continue,
            },
            InputMode::Running => {
                if self.is_word_delete(key) {
                    self.input = remove_last_word(&self.input);
                } else {
                    match key.code {
                        KeyCode::Char(c) => {
                            let position = self.input.len();
                            self.input.push(c);
                            let expected = self.expected_input.get_string(self.input.len());
                            self.raw_counts.record(c == expected.as_str().get_char(position));
                        },
                        KeyCode::Backspace => {
                            self.input.pop();
                        },
                        KeyCode::Esc => {
                            self.pause_time = now;
                            self.input_mode = InputMode::Paused;
                        },
                        KeyCode::Other => {},
                    }
                }
                Step::Continue
            },
            _ => Step::Continue,
        }
    }

    /// Checks the clock at reading `now`: a running session whose duration
    /// is used up finishes and reports its statistics.
    pub fn check_timeout(&mut self, now: u64) -> (r: Step)
        ensures
            final(self).source() == old(self).source(),
            timed_out(old(self)@, now) ==> final(self)@ == (SessionState {
                mode: InputMode::Finished,
                ..old(self)@
            }) && r == Step::Finished(old(self).spec_stats()),
            !timed_out(old(self)@, now) ==> final(self)@ == old(self)@ && r == Step::Continue,
    {
        if self.input_mode == InputMode::Running && self.is_started {
            let ran = if now >= self.start_time {
                now - self.start_time
            } else {
                0
            };
            if ran as u128 >= 1000 * (self.duration_secs as u128) {
                let stats = self.get_stats();
                self.input_mode = InputMode::Finished;
                return Step::Finished(stats);
            }
        }
        Step::Continue
    }

    /// The statistics of the session as it stands.
    pub open spec fn spec_stats(&self) -> Stats {
        stats_of(
            self@.input,
            text_prefix(&self.source(), self@.input.len()),
            self@.raw_valid,
            self@.raw_mistakes,
            self@.duration_secs,
        )
    }

    /// The statistics of the session: the input against the reference text
    /// under it, the raw counters and the duration.
    pub fn get_stats(&self) -> (r: Stats)
        ensures
            r == self.spec_stats(),
    {
        let expected = self.expected_input.get_string(self.input.len());
        let expected_chars = chars_of(expected.as_str());
        assert(expected_chars@ =~= text_prefix(&self.source(), self@.input.len()));
        let (valid, mistakes) = self.raw_counts.counts();
        calculate_stats(&self.input, &expected_chars, valid, mistakes, self.duration_secs)
    }

    /// Whole seconds left at clock reading `now`: the full duration before
    /// the start, the time left at the pause while paused, none once the
    /// session has ended.
    pub fn time_left_secs(&self, now: u64) -> (r: u64)
        ensures
            r == seconds_left(self@, now),
    {
        let duration_ms = 1000 * (self.duration_secs as u128);
        let since_start: u128 = if now >= self.start_time {
            (now - self.start_time) as u128
        } else {
            0
        };
        match self.input_mode {
            InputMode::Paused => {
                if self.is_started {
                    let since_pause: u128 = if now >= self.pause_time {
                        (now - self.pause_time) as u128
                    } else {
                        0
                    };
                    let ran = if since_start >= since_pause {
                        since_start - since_pause
                    } else {
                        0
                    };
                    let left = if duration_ms >= ran {
                        duration_ms - ran
                    } else {
                        0
                    };
                    (left / 1000) as u64
                } else {
                    self.duration_secs
                }
            },
            InputMode::Running => {
                let left = if duration_ms >= since_start {
                    duration_ms - since_start
                } else {
                    0
                };
                (left / 1000) as u64
            },
            _ => 0,
        }
    }

    /// The reference text around the cursor for a display `width` characters wide.
    pub fn layout(&self, width: usize) -> (r: LineWrap)
        requires
            width >= 1,
            (self@.input.len() / (width as nat) + 2) * width <= usize::MAX,
        ensures
            is_line_wrap(r, &self.source(), self@.input.len(), width as nat),
    {
        line_wrap_layout(&self.expected_input, self.input.len(), width)
    }

    /// The current state of the session.
    pub fn mode(&self) -> (r: InputMode)
        ensures
            r == self@.mode,
    {
        self.input_mode
    }

    /// Whether the session was ever started.
    pub fn is_started(&self) -> (r: bool)
        ensures
            r == self@.is_started,
    {
        self.is_started
    }

    /// What has been typed, after corrections.
    pub fn input(&self) -> (r: String)
        ensures
            r@ == self@.input,
    {
        string_from_chars(&self.input)
    }

    /// Number of characters typed, after corrections.
    pub fn input_len(&self) -> (r: usize)
        ensures
            r == self@.input.len(),
    {
        self.input.len()
    }

    /// The raw counters: keystrokes typed correctly and mistyped.
    pub fn raw_counts(&self) -> (r: (u64, u64))
        ensures
            r == (self@.raw_valid, self@.raw_mistakes),
            r.0 + r.1 <= u64::MAX,
    {
        self.raw_counts.counts()
    }

    /// For each typed character, whether it matches the reference character
    /// at its position.
    pub fn typed_marks(&self) -> (r: Vec<bool>)
        ensures
            r@.len() == self@.input.len(),
            forall|i: int|
                0 <= i < r@.len() ==> r@[i] == (self@.input[i] == self.source().char_at(i as nat)),
    {
        let expected = self.expected_input.get_string(self.input.len());
        let expected_chars = chars_of(expected.as_str());
        let mut marks: Vec<bool> = Vec::new();
        for i in 0..self.input.len()
            invariant
                expected_chars@.len() == self@.input.len(),
                forall|j: nat|
                    j < self@.input.len() ==> expected_chars@[j as int]
                        == #[trigger] self.source().char_at(j),
                marks@.len() == i,
                forall|j: int|
                    0 <= j < i ==> marks@[j] == (self@.input[j] == self.source().char_at(j as nat)),
        {
            marks.push(self.input[i] == expected_chars[i]);
        }
        marks
    }

    /// Whether the cursor is shown: only while keys are typed into the input.
    pub fn shows_cursor(&self) -> (r: bool)
        ensures
            r == (self@.mode == InputMode::Running),
    {
        self.input_mode == InputMode::Running
    }

    /// The help line for the current state.
    pub fn help_message(&self) -> (r: &'static str)
        ensures
            r@ == help_text(self@),
    {
        match self.input_mode {
            InputMode::Paused => {
                if self.is_started {
                    "press 's' to unpause the test, press 'q' to quit"
                } else {
                    "press 's' to start the test, press 'q' to quit"
                }
            },
            InputMode::Running => "press 'Esc' to pause the test",
            _ => "",
        }
    }

    fn is_word_delete(&self, key: KeyPress) -> (r: bool)
        ensures
            r == is_word_delete(key),
    {
        match key.code {
            KeyCode::Char(c) => key.ctrl && (c == 'h' || c == 'w'),
            KeyCode::Backspace => key.ctrl || key.alt,
            _ => false,
        }
    }
}

/// Quitting a session that was never started cancels it, and the result
/// carries all-zero statistics.
pub proof fn lemma_quit_before_start(
    duration_secs: u64,
    quit: KeyPress,
    now: u64,
    expected: spec_fn(nat) -> char,
)
    requires
        quit.code == KeyCode::Char('q'),
    ensures
        after_key(initial_state(duration_secs), quit, now, expected).mode == InputMode::Cancelled,
        key_step(initial_state(duration_secs), quit) == Step::Cancelled(zero_stats()),
{
}

/// Pausing a running session and resuming it keeps the raw counters and the
/// input as they were.
pub proof fn lemma_pause_resume_keeps_counts(
    s: SessionState,
    pause: KeyPress,
    paused_at: u64,
    resume: KeyPress,
    resumed_at: u64,
    expected: spec_fn(nat) -> char,
)
    requires
        s.mode == InputMode::Running,
        pause.code == KeyCode::Esc,
        resume.code == KeyCode::Char('s'),
    ensures
        ({
            let back = after_key(after_key(s, pause, paused_at, expected), resume, resumed_at, expected);
            &&& back.mode == InputMode::Running
            &&& back.raw_valid == s.raw_valid
            &&& back.raw_mistakes == s.raw_mistakes
            &&& back.input == s.input
        }),
{
}

/// After a pause and a resume, the running time counts the time before the
/// pause and the time since the resume, and not the time paused.
pub proof fn lemma_pause_excluded_from_running_time(
    s: SessionState,
    pause: KeyPress,
    paused_at: u64,
    resume: KeyPress,
    resumed_at: u64,
    now: u64,
    expected: spec_fn(nat) -> char,
)
    requires
        s.mode == InputMode::Running,
        s.is_started,
        pause.code == KeyCode::Esc,
        resume.code == KeyCode::Char('s'),
        s.start_time <= paused_at <= resumed_at <= now,
    ensures
        ({
            let back = after_key(after_key(s, pause, paused_at, expected), resume, resumed_at, expected);
            elapsed(now, back.start_time) == elapsed(paused_at, s.start_time) + elapsed(
                now,
                resumed_at,
            )
        }),
{
}

} // verus!
