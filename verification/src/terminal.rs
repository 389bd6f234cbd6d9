//! What is known of the terminal: the result of probing standard output, and
//! the guard that puts the terminal back when it goes out of scope.

use vstd::prelude::*;

verus! {

/// The result of probing standard output once: whether it is an interactive
/// terminal and, if it is, how many rows it has and where the cursor stands.
///
/// A screen that is not interactive has no rows and its cursor row is 0. On an
/// interactive screen the cursor row lies inside the screen.
#[derive(Debug, Clone, Copy, PartialEq, Eq)]
pub struct Screen {
    interactive: bool,
    rows: u16,
    cursor_row: u16,
}

impl Screen {
    /// Whether output goes to an interactive terminal.
    pub closed spec fn interactive(&self) -> bool {
        self.interactive
    }

    /// The number of rows of the terminal; 0 when not interactive.
    pub closed spec fn rows(&self) -> u16 {
        self.rows
    }

    /// The row the cursor stood on when the screen was probed; 0 when not
    /// interactive.
    pub closed spec fn cursor_row(&self) -> u16 {
        self.cursor_row
    }

    /// A screen is valid when its cursor row lies inside it, and when a
    /// screen that is not interactive holds no geometry at all.
    pub open spec fn wf(&self) -> bool {
        if self.interactive() {
            self.cursor_row() < self.rows()
        } else {
            self.rows() == 0 && self.cursor_row() == 0
        }
    }

    /// The screen of output that is not a terminal: redirected to a file or a
    /// pipe, or captured by a test harness.
    pub fn plain() -> (screen: Screen)
        ensures
            screen.wf(),
            !screen.interactive(),
    {
        Screen { interactive: false, rows: 0, cursor_row: 0 }
    }

    /// Builds a screen from the raw answers of a probe. `tty` says whether
    /// standard output is a terminal; `rows` and `cursor_row` are `None` where
    /// the terminal did not answer.
    ///
    /// The screen is interactive only if every answer is there and the cursor
    /// row lies inside the screen. Any doubt gives the plain screen.
    pub fn detect(tty: bool, rows: Option<u16>, cursor_row: Option<u16>) -> (screen: Screen)
        ensures
            screen.wf(),
            screen.interactive() <==> tty && rows is Some && cursor_row is Some
                && cursor_row->0 < rows->0,
            screen.interactive() ==> screen.rows() == rows->0 && screen.cursor_row()
                == cursor_row->0,
    {
        if !tty {
            return Screen::plain();
        }
        match (rows, cursor_row) {
            (Some(height), Some(row)) => {
                if row < height {
                    Screen { interactive: true, rows: height, cursor_row: row }
                } else {
                    Screen::plain()
                }
            },
            _ => Screen::plain(),
        }
    }

    /// Whether output goes to an interactive terminal.
    pub fn is_interactive(&self) -> (b: bool)
        ensures
            b == self.interactive(),
    {
        self.interactive
    }

    /// The number of rows of the terminal.
    pub fn get_rows(&self) -> (rows: u16)
        ensures
            rows == self.rows(),
    {
        self.rows
    }

    /// The row the cursor stood on when the screen was probed.
    pub fn get_cursor_row(&self) -> (row: u16)
        ensures
            row == self.cursor_row(),
    {
        self.cursor_row
    }
}

/// Prepares the terminal for a run. Nothing needs preparing: the library
/// paints through plans and keeps no terminal mode of its own.
pub fn setup_terminal() {
}

/// Puts the terminal back after a run. The counterpart of
/// [`setup_terminal`], and as empty.
pub fn reset_terminal()
    opens_invariants none
    no_unwind
{
}

/// Resets the terminal when dropped, so that every way out of a run leaves
/// the terminal as it was found.
pub struct TerminalGuard;

impl Drop for TerminalGuard {
    fn drop(&mut self)
        opens_invariants none
        no_unwind
    {
        reset_terminal();
    }
}

} // verus!
