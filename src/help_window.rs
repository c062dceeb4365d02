//! Placement of the help window over the test.

use vstd::prelude::*;

verus! {

/// A rectangle of terminal cells.
#[derive(Clone, Copy, Debug, PartialEq, Eq, Structural)]
pub struct Area {
    pub x: u16,
    pub y: u16,
    pub width: u16,
    pub height: u16,
}

/// What the help window draws in a frame.
#[derive(Clone, Copy, Debug, PartialEq, Eq, Structural)]
pub enum HelpLayout {
    /// The frame is too small for anything: it is only cleared.
    Cleared,
    /// The frame is too short for the help text; a notice says so.
    TooShort,
    /// The frame is too narrow for the help text; a notice says so.
    TooNarrow,
    /// The help text, one line per row, in this window.
    Window(Area),
}

/// Number of lines of the help text.
pub const HELP_HEIGHT: u16 = 14;

/// Length of the longest line of the help text.
pub const HELP_WIDTH: u16 = 64;

/// The window for text `window_width` wide and `window_height` high:
/// centred across the frame, three rows down when there is room.
pub open spec fn centered(window_width: u16, window_height: u16, r: Area) -> Area {
    Area {
        x: (r.x + (if r.width >= window_width + 2 {
            r.width - (window_width + 2)
        } else {
            0
        }) / 2) as u16,
        y: if r.height > window_height + 4 {
            3
        } else {
            0
        },
        width: (window_width + 2) as u16,
        height: (window_height + 1) as u16,
    }
}

/// What the help window draws in `frame`.
pub open spec fn help_layout(frame: Area) -> HelpLayout {
    if frame.height < 3 {
        HelpLayout::Cleared
    } else if frame.height <= HELP_HEIGHT {
        HelpLayout::TooShort
    } else if frame.width <= HELP_WIDTH + 2 {
        HelpLayout::TooNarrow
    } else {
        HelpLayout::Window(centered(HELP_WIDTH, HELP_HEIGHT, frame))
    }
}

/// The help window: key bindings and the main options.
pub struct HelpWindow;

impl HelpWindow {
    pub fn new() -> Self {
        HelpWindow
    }

    /// The lines of the help text.
    pub fn lines(&self) -> (r: Vec<&'static str>)
        ensures
            r@.len() == HELP_HEIGHT,
            forall|i: int| 0 <= i < r@.len() ==> r@[i]@.len() <= HELP_WIDTH,
            exists|i: int| 0 <= i < r@.len() && r@[i]@.len() == HELP_WIDTH,
    {
        proof {
            reveal_strlit("");
            reveal_strlit(" Navigation:");
            reveal_strlit(" 's'   - Start/resume the test");
            reveal_strlit(" <Esc> - Pause the test");
            reveal_strlit(" 'q'   - Quit");
            reveal_strlit(" '?'   - Toggle this window");
            reveal_strlit(" Configuration:");
            reveal_strlit(" --duration <seconds> - Set test duration");
            reveal_strlit(" --numbers - Include numbers in the test");
            reveal_strlit(" --uppercase - Include uppercase letters");
            reveal_strlit(" Run 'donkeytype help' in your terminal to get more information ");
        }
        let r = vec![
            "",
            " Navigation:",
            " 's'   - Start/resume the test",
            " <Esc> - Pause the test",
            " 'q'   - Quit",
            " '?'   - Toggle this window",
            "",
            " Configuration:",
            " --duration <seconds> - Set test duration",
            " --numbers - Include numbers in the test",
            " --uppercase - Include uppercase letters",
            "",
            " Run 'donkeytype help' in your terminal to get more information ",
            "",
        ];
        assert(r@[12]@.len() == HELP_WIDTH);
        r
    }

    /// Where the help window goes in `frame`, or why it does not fit.
    pub fn layout(&self, frame: Area) -> (r: HelpLayout)
        requires
            frame.x + frame.width <= u16::MAX,
        ensures
            r == help_layout(frame),
    {
        if frame.height < 3 {
            HelpLayout::Cleared
        } else if frame.height <= HELP_HEIGHT {
            HelpLayout::TooShort
        } else if frame.width <= HELP_WIDTH + 2 {
            HelpLayout::TooNarrow
        } else {
            HelpLayout::Window(Self::get_centered_rect(HELP_WIDTH, HELP_HEIGHT, frame))
        }
    }

    fn get_centered_rect(window_width: u16, window_height: u16, r: Area) -> (a: Area)
        requires
            window_width + 2 <= u16::MAX,
            window_height + 4 <= u16::MAX,
            r.x + r.width <= u16::MAX,
        ensures
            a == centered(window_width, window_height, r),
    {
        let x = r.x + r.width.saturating_sub(window_width + 2) / 2;
        let y = if r.height > window_height + 4 {
            3
        } else {
            0
        };
        Area { x, y, width: window_width + 2, height: window_height + 1 }
    }
}

} // verus!
