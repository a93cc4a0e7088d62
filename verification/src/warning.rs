//! A scrollable warning pop-up about a non-fatal error.
//!
//! The application layer wraps an error chain into display lines; this
//! module owns the pop-up's state: which lines exist, how far the user has
//! scrolled, and how the user dismisses it.
use vstd::prelude::*;
use crate::command::Command;

verus! {

/// An enum of the ways that the user can finish working with a warning
/// pop-up.
#[derive(Clone, Copy, Debug, PartialEq, Eq, Structural)]
pub enum WarningOutcome {
    /// The user dismissed the pop-up.
    Dismissed,
    /// The user quit the application.
    Quit,
}

/// Where the scroll offset of `w` stands after a command that does not
/// close the pop-up: Up and Down move the view one line while the text is
/// scrollable, staying inside the text.
pub open spec fn spec_offset_after(w: Warning, cmd: Command) -> nat {
    if cmd == Command::Up && w.spec_lines().len() > Warning::MAX_LINES && w.spec_offset() > 0 {
        (w.spec_offset() - 1) as nat
    } else if cmd == Command::Down && w.spec_lines().len() > Warning::MAX_LINES
        && w.spec_offset() + 1 < w.spec_max_scroll() {
        w.spec_offset() + 1
    } else {
        w.spec_offset()
    }
}

/// `w2` is `w` with its scroll offset at `off`: same text, same scroll
/// bound.
pub open spec fn spec_warning_like(w2: Warning, w: Warning, off: nat) -> bool {
    &&& w2.spec_lines() == w.spec_lines()
    &&& w2.spec_max_scroll() == w.spec_max_scroll()
    &&& w2.spec_offset() == off
}

/// A warning about an error, displayed as a pop-up window over the
/// screen, scrollable when its text is taller than the window.
#[derive(Clone, Debug, PartialEq, Eq)]
pub struct Warning {
    /// The display lines of the warning text.
    lines: Vec<String>,
    /// How many lines are scrolled off the top of the window.
    scroll_offset: usize,
    /// One more than the largest scroll offset that still changes the
    /// view.
    max_scroll: usize,
}

impl Warning {
    /// The maximum number of text lines displayed at once.
    pub const MAX_LINES: u16 = 16;

    /// The width of the text area, in columns.
    pub const TEXT_WIDTH: u16 = 48;

    /// The width of the pop-up when no scrollbar is shown.
    pub const WIDTH: u16 = 52;

    pub closed spec fn spec_lines(self) -> Seq<String> {
        self.lines@
    }

    pub closed spec fn spec_offset(self) -> nat {
        self.scroll_offset as nat
    }

    pub closed spec fn spec_max_scroll(self) -> nat {
        self.max_scroll as nat
    }

    /// There is at least one line; the scroll bound fits the line count;
    /// and the offset never passes the bound.
    pub open spec fn wf(self) -> bool {
        &&& self.spec_lines().len() >= 1
        &&& self.spec_max_scroll() == if self.spec_lines().len() > (Self::MAX_LINES - 1) {
            (self.spec_lines().len() - (Self::MAX_LINES - 1)) as nat
        } else {
            0
        }
        &&& self.spec_offset() == 0 || self.spec_offset() < self.spec_max_scroll()
    }

    /// A new warning showing the given display lines, scrolled to the
    /// top.
    pub fn from_lines(lines: Vec<String>) -> (r: Warning)
        requires
            lines@.len() >= 1,
        ensures
            r.spec_lines() == lines@,
            r.spec_offset() == 0,
            r.wf(),
    {
        let limit: usize = (Self::MAX_LINES - 1) as usize;
        let max_scroll: usize = if lines.len() > limit {
            lines.len() - limit
        } else {
            0
        };
        Warning { lines, scroll_offset: 0, max_scroll }
    }

    /// Does the text not fit in [`MAX_LINES`][Self::MAX_LINES],
    /// necessitating scrolling and a scrollbar?
    pub fn scrolling(&self) -> (r: bool)
        ensures
            r == (self.spec_lines().len() > Self::MAX_LINES),
    {
        self.lines.len() > Self::MAX_LINES as usize
    }

    /// The display lines of the warning text.
    pub fn lines(&self) -> (r: &Vec<String>)
        ensures
            r@ == self.spec_lines(),
    {
        &self.lines
    }

    /// How many lines are scrolled off the top of the window.
    pub fn scroll_offset(&self) -> (r: usize)
        ensures
            r == self.spec_offset(),
    {
        self.scroll_offset
    }

    /// One more than the largest useful scroll offset.
    pub fn max_scroll(&self) -> (r: usize)
        ensures
            r == self.spec_max_scroll(),
    {
        self.max_scroll
    }

    /// Process an input command.  Enter dismisses the pop-up and Ctrl-C
    /// quits; while the text is scrollable, Up and Down move the view one
    /// line, staying inside the text.
    pub fn handle_command(&mut self, cmd: Command) -> (r: Option<WarningOutcome>)
        requires
            old(self).wf(),
        ensures
            final(self).wf(),
            r is Some ==> *final(self) == *old(self),
            final(self).spec_lines() == old(self).spec_lines(),
            final(self).spec_max_scroll() == old(self).spec_max_scroll(),
            r == (match cmd {
                Command::Enter => Some(WarningOutcome::Dismissed),
                Command::Quit => Some(WarningOutcome::Quit),
                _ => None::<WarningOutcome>,
            }),
            final(self).spec_offset() == (if r is None {
                spec_offset_after(*old(self), cmd)
            } else {
                old(self).spec_offset()
            }),
    {
        let scrolling = self.scrolling();
        match cmd {
            Command::Enter => return Some(WarningOutcome::Dismissed),
            Command::Quit => return Some(WarningOutcome::Quit),
            Command::Up => {
                if scrolling && self.scroll_offset > 0 {
                    self.scroll_offset = self.scroll_offset - 1;
                }
            }
            Command::Down => {
                let limit = if self.max_scroll > 0 {
                    self.max_scroll - 1
                } else {
                    0
                };
                if scrolling && self.scroll_offset < limit {
                    self.scroll_offset = self.scroll_offset + 1;
                }
            }
            _ => (),
        }
        None
    }
}

} // verus!
