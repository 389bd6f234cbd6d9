//! Paint steps: what an update asks the terminal to do, as plain data.
//!
//! The library never writes to the terminal. Every operation that changes
//! what should be on screen returns a list of steps, to be carried out in
//! order and without interruption by whoever owns the terminal.

use vstd::prelude::*;

verus! {

/// One step of a paint plan.
#[derive(Debug, PartialEq, Eq)]
pub enum Paint {
    /// Put the cursor at the first column of the given row.
    MoveTo(u16),
    /// Erase the line the cursor is on.
    ClearLine,
    /// Erase everything from the cursor to the end of the screen.
    ClearBelow,
    /// Scroll the viewport up by the given number of lines.
    ScrollUp(u16),
    /// Write text at the cursor.
    Text(String),
    /// Write text at the cursor, coloured as an error.
    ErrorText(String),
    /// Draw a determinate bar at the cursor.
    Bar { position: u32, total: u32, message: String },
    /// Draw one frame of a spinner at the cursor.
    Spinner { glyph: char, message: String },
    /// Write a plain line to standard output, with no cursor control.
    Line(String),
    /// Write a plain line to standard error, with no cursor control.
    ErrorLine(String),
}

/// The mathematical value of a [`Paint`] step: strings become sequences of
/// characters.
pub enum PaintView {
    MoveTo(u16),
    ClearLine,
    ClearBelow,
    ScrollUp(u16),
    Text(Seq<char>),
    ErrorText(Seq<char>),
    Bar { position: u32, total: u32, message: Seq<char> },
    Spinner { glyph: char, message: Seq<char> },
    Line(Seq<char>),
    ErrorLine(Seq<char>),
}

impl DeepView for Paint {
    type V = PaintView;

    open spec fn deep_view(&self) -> PaintView {
        match self {
            Paint::MoveTo(row) => PaintView::MoveTo(*row),
            Paint::ClearLine => PaintView::ClearLine,
            Paint::ClearBelow => PaintView::ClearBelow,
            Paint::ScrollUp(lines) => PaintView::ScrollUp(*lines),
            Paint::Text(text) => PaintView::Text(text@),
            Paint::ErrorText(text) => PaintView::ErrorText(text@),
            Paint::Bar { position, total, message } => PaintView::Bar {
                position: *position,
                total: *total,
                message: message@,
            },
            Paint::Spinner { glyph, message } => PaintView::Spinner {
                glyph: *glyph,
                message: message@,
            },
            Paint::Line(text) => PaintView::Line(text@),
            Paint::ErrorLine(text) => PaintView::ErrorLine(text@),
        }
    }
}

/// Appends the steps of `tail` to `plan`.
pub fn extend(plan: &mut Vec<Paint>, tail: Vec<Paint>)
    ensures
        final(plan).deep_view() == old(plan).deep_view() + tail.deep_view(),
{
    let ghost added = tail.deep_view();
    let mut tail = tail;
    plan.append(&mut tail);
    assert(plan.deep_view() =~= old(plan).deep_view() + added);
}

} // verus!
