//! A single progress element: a determinate bar, an animated spinner, or a
//! hidden element that only counts.
//!
//! A [`ProgressBar`] is plain state. Every operation that changes what should
//! be on screen returns the paint plan that shows the change; on a screen that
//! is not interactive the plans are empty, or hold one plain line.

use crate::paint::{extend, Paint, PaintView};
use crate::terminal::Screen;
use vstd::prelude::*;

verus! {

/// How a progress element shows itself. Fixed when the element is created.
#[derive(Clone, Copy, PartialEq, Eq, Debug, Structural)]
pub enum ProgressBarStyle {
    /// A determinate bar that fills up towards a total.
    Bar,
    /// An indeterminate indicator that cycles through a set of glyphs.
    Spinner,
    /// No visual output; the counters are still kept.
    Hidden,
}

/// The number of frames in one turn of the spinner.
pub const SPINNER_FRAMES: u32 = 29;

/// The glyphs of the spinner, in the order they are shown.
pub open spec fn spinner_frames() -> Seq<char> {
    seq![
        '\u{2801}', '\u{2801}', '\u{2809}', '\u{2819}', '\u{281a}', '\u{2812}', '\u{2802}',
        '\u{2802}', '\u{2812}', '\u{2832}', '\u{2834}', '\u{2824}', '\u{2804}', '\u{2804}',
        '\u{2824}', '\u{2820}', '\u{2820}', '\u{2824}', '\u{2826}', '\u{2816}', '\u{2812}',
        '\u{2810}', '\u{2810}', '\u{2812}', '\u{2813}', '\u{280b}', '\u{2809}', '\u{2808}',
        '\u{2808}',
    ]
}

/// The glyph shown for a frame index. Indices wrap around after the last
/// frame.
pub fn spinner_glyph(frame: u32) -> (glyph: char)
    ensures
        glyph == spinner_frames()[(frame % SPINNER_FRAMES) as int],
{
    match frame % SPINNER_FRAMES {
        0 => '\u{2801}',
        1 => '\u{2801}',
        2 => '\u{2809}',
        3 => '\u{2819}',
        4 => '\u{281a}',
        5 => '\u{2812}',
        6 => '\u{2802}',
        7 => '\u{2802}',
        8 => '\u{2812}',
        9 => '\u{2832}',
        10 => '\u{2834}',
        11 => '\u{2824}',
        12 => '\u{2804}',
        13 => '\u{2804}',
        14 => '\u{2824}',
        15 => '\u{2820}',
        16 => '\u{2820}',
        17 => '\u{2824}',
        18 => '\u{2826}',
        19 => '\u{2816}',
        20 => '\u{2812}',
        21 => '\u{2810}',
        22 => '\u{2810}',
        23 => '\u{2812}',
        24 => '\u{2813}',
        25 => '\u{280b}',
        26 => '\u{2809}',
        27 => '\u{2808}',
        _ => '\u{2808}',
    }
}

/// The mathematical value of a [`ProgressBar`].
pub struct BarView {
    /// How the element shows itself.
    pub style: ProgressBarStyle,
    /// The progress counter; for a spinner, the index of the current frame.
    pub position: u32,
    /// The value at which a bar is full.
    pub total: u32,
    /// The status text shown beside the element.
    pub message: Seq<char>,
    /// The terminal row the element is painted on.
    pub row: u16,
    /// Whether the animation, if there is one, repaints the element.
    pub spinning: bool,
    /// Whether an animation task exists for the element.
    pub running: bool,
    /// Whether the element paints on an interactive terminal.
    pub interactive: bool,
    /// The number of rows of that terminal.
    pub rows: u16,
}

/// The position a counter moves to when `delta` is added to it: a bar stops
/// at its total, a hidden element at the largest value the counter can hold,
/// and a spinner steps to its next frame whatever the delta.
pub open spec fn advance_position(
    style: ProgressBarStyle,
    position: u32,
    total: u32,
    delta: u32,
) -> u32 {
    match style {
        ProgressBarStyle::Bar => if position + delta >= total {
            total
        } else {
            (position + delta) as u32
        },
        ProgressBarStyle::Hidden => if position + delta >= u32::MAX {
            u32::MAX
        } else {
            (position + delta) as u32
        },
        ProgressBarStyle::Spinner => ((position + 1) % (SPINNER_FRAMES as int)) as u32,
    }
}

/// The position a counter takes when it is set to `value`: a bar stops at its
/// total, a hidden element takes the value as it is, and a spinner takes the
/// frame the value wraps around to.
pub open spec fn place_position(style: ProgressBarStyle, total: u32, value: u32) -> u32 {
    match style {
        ProgressBarStyle::Bar => if value >= total {
            total
        } else {
            value
        },
        ProgressBarStyle::Hidden => value,
        ProgressBarStyle::Spinner => value % SPINNER_FRAMES,
    }
}

impl BarView {
    /// The invariant of an element: a bar never passes its total, a spinner's
    /// frame index is a frame, and only a spinner is ever animated.
    pub open spec fn wf(self) -> bool {
        &&& self.style == ProgressBarStyle::Bar ==> self.position <= self.total
        &&& self.style == ProgressBarStyle::Spinner ==> self.position < SPINNER_FRAMES
        &&& self.style != ProgressBarStyle::Spinner ==> !self.spinning && !self.running
    }

    /// A new element of the given style on the given screen: nothing counted,
    /// no message, not animated, on the row the cursor stood on.
    pub open spec fn fresh(style: ProgressBarStyle, total: u32, screen: Screen) -> BarView {
        BarView {
            style,
            position: 0,
            total,
            message: Seq::empty(),
            row: if screen.interactive() {
                screen.cursor_row()
            } else {
                0
            },
            spinning: false,
            running: false,
            interactive: screen.interactive(),
            rows: screen.rows(),
        }
    }

    /// The element after `delta` was added to its counter.
    pub open spec fn advanced(self, delta: u32) -> BarView {
        BarView {
            position: advance_position(self.style, self.position, self.total, delta),
            ..self
        }
    }

    /// The element after every delta of `deltas` was added to its counter, in
    /// order.
    pub open spec fn after_increments(self, deltas: Seq<u32>) -> BarView
        decreases deltas.len(),
    {
        if deltas.len() == 0 {
            self
        } else {
            self.after_increments(deltas.drop_last()).advanced(deltas.last())
        }
    }

    /// The element after its counter was set to `value`.
    pub open spec fn placed(self, value: u32) -> BarView {
        BarView { position: place_position(self.style, self.total, value), ..self }
    }

    /// The element with a new message.
    pub open spec fn retitled(self, message: Seq<char>) -> BarView {
        BarView { message, ..self }
    }

    /// The element moved to another row.
    pub open spec fn moved(self, row: u16) -> BarView {
        BarView { row, ..self }
    }

    /// Whether the two are the same element but for where they sit: the same
    /// style, counters, message and animation; the screen and the row may
    /// differ.
    pub open spec fn alike(self, other: BarView) -> bool {
        (BarView { row: other.row, interactive: other.interactive, rows: other.rows, ..self })
            == other
    }

    /// Whether starting the element's animation calls for a new animation
    /// task: it is a spinner and has no task.
    pub open spec fn needs_task(self) -> bool {
        self.style == ProgressBarStyle::Spinner && !self.running
    }

    /// The element after its animation was started: a spinner is animated and
    /// has a task, any other element is unchanged.
    pub open spec fn started(self) -> BarView {
        if self.style == ProgressBarStyle::Spinner {
            BarView { spinning: true, running: true, ..self }
        } else {
            self
        }
    }

    /// The element with its animation paused.
    pub open spec fn stopped(self) -> BarView {
        BarView { spinning: false, ..self }
    }

    /// The element after it was finished: a spinner has no task any more, any
    /// other element is unchanged.
    pub open spec fn finished(self) -> BarView {
        if self.style == ProgressBarStyle::Spinner {
            BarView { running: false, ..self }
        } else {
            self
        }
    }

    /// The steps that draw the element as a bar on its row.
    pub open spec fn bar_line(self) -> Seq<PaintView> {
        seq![
            PaintView::MoveTo(self.row),
            PaintView::ClearLine,
            PaintView::Bar { position: self.position, total: self.total, message: self.message },
        ]
    }

    /// The steps that draw the element's current spinner frame on its row.
    pub open spec fn spinner_line(self) -> Seq<PaintView> {
        seq![
            PaintView::MoveTo(self.row),
            PaintView::ClearLine,
            PaintView::Spinner {
                glyph: spinner_frames()[(self.position % SPINNER_FRAMES) as int],
                message: self.message,
            },
        ]
    }

    /// The steps that draw the element on its row, by its style. A hidden
    /// element takes no steps.
    pub open spec fn element(self) -> Seq<PaintView> {
        match self.style {
            ProgressBarStyle::Bar => self.bar_line(),
            ProgressBarStyle::Spinner => self.spinner_line(),
            ProgressBarStyle::Hidden => Seq::empty(),
        }
    }

    /// The plan that repaints the element in place: its line on an
    /// interactive screen, nothing otherwise.
    pub open spec fn frame(self) -> Seq<PaintView> {
        if self.interactive {
            self.element()
        } else {
            Seq::empty()
        }
    }

    /// The element after one call that renders its spinner frame: on an
    /// interactive screen a spinner takes the row it is told to, if any, and
    /// steps to its next frame if asked to; anything else is unchanged.
    pub open spec fn spun(self, inc_index: bool, row_position: Option<u16>) -> BarView {
        if self.style == ProgressBarStyle::Spinner && self.interactive {
            BarView {
                row: match row_position {
                    Some(row) => row,
                    None => self.row,
                },
                position: if inc_index {
                    ((self.position + 1) % (SPINNER_FRAMES as int)) as u32
                } else {
                    self.position
                },
                ..self
            }
        } else {
            self
        }
    }

    /// The plan of that call: the frame the spinner was on, drawn on the row
    /// it now has.
    pub open spec fn spun_plan(self, row_position: Option<u16>) -> Seq<PaintView> {
        if self.style == ProgressBarStyle::Spinner && self.interactive {
            self.spun(false, row_position).spinner_line()
        } else {
            Seq::empty()
        }
    }

    /// Whether the element is being animated: it has an animation task, and
    /// the task is not paused.
    pub open spec fn animating(self) -> bool {
        self.running && self.spinning
    }

    /// The element after one step of its animation task: while it is being
    /// animated it renders its frame and steps to the next; otherwise it is
    /// unchanged.
    pub open spec fn ticked(self) -> BarView {
        if self.animating() {
            self.spun(true, None)
        } else {
            self
        }
    }

    /// The plan of one step of the animation task.
    pub open spec fn tick_plan(self) -> Seq<PaintView> {
        if self.animating() {
            self.spun_plan(None)
        } else {
            Seq::empty()
        }
    }

    /// Whether the element stands on the last row of its screen, or below it.
    pub open spec fn at_bottom(self) -> bool {
        self.row + 1 >= self.rows
    }

    /// The element after a line was printed above it: on an interactive
    /// screen it moves down one row, unless it stands at the bottom, where the
    /// viewport scrolls instead.
    pub open spec fn pushed_down(self) -> BarView {
        if self.interactive && !self.at_bottom() {
            self.moved((self.row + 1) as u16)
        } else {
            self
        }
    }

    /// The plan that prints a line above the element. `text` is the step that
    /// writes the line at the cursor, `fallback` the step that writes it as a
    /// plain line.
    ///
    /// Off a terminal the plan is the fallback alone. On a terminal the line
    /// takes the row of the element and the element is drawn one row further
    /// down; at the bottom the viewport scrolls up by one first, the line
    /// takes the row above the element, and the element keeps its row.
    pub open spec fn line_plan(self, text: PaintView, fallback: PaintView) -> Seq<PaintView> {
        if !self.interactive {
            seq![fallback]
        } else if self.at_bottom() {
            seq![
                PaintView::ScrollUp(1),
                PaintView::MoveTo(
                    if self.row == 0 {
                        0u16
                    } else {
                        (self.row - 1) as u16
                    },
                ),
                PaintView::ClearLine,
                text,
            ] + self.element()
        } else {
            seq![PaintView::MoveTo(self.row), PaintView::ClearLine, text]
                + self.pushed_down().element()
        }
    }
}

/// The sum of a series of deltas.
pub open spec fn sum(deltas: Seq<u32>) -> int
    decreases deltas.len(),
{
    if deltas.len() == 0 {
        0
    } else {
        sum(deltas.drop_last()) + deltas.last()
    }
}

/// A series of increments moves a bar to its old position plus the sum of the
/// deltas, or to its total where that is less, and changes nothing else.
pub proof fn lemma_increments(bar: BarView, deltas: Seq<u32>)
    requires
        bar.wf(),
        bar.style == ProgressBarStyle::Bar,
    ensures
        sum(deltas) >= 0,
        bar.after_increments(deltas).wf(),
        bar.after_increments(deltas) == (BarView {
            position: if bar.position + sum(deltas) >= bar.total {
                bar.total
            } else {
                (bar.position + sum(deltas)) as u32
            },
            ..bar
        }),
    decreases deltas.len(),
{
    if deltas.len() > 0 {
        lemma_increments(bar, deltas.drop_last());
    }
}

/// Clamping: once the increments of a bar add up to its total or more, counted
/// from where the bar stood, the bar stands at its total, however far the
/// increments go beyond it.
pub proof fn law_increments_clamp(bar: BarView, deltas: Seq<u32>)
    requires
        bar.wf(),
        bar.style == ProgressBarStyle::Bar,
        bar.position + sum(deltas) >= bar.total,
    ensures
        bar.after_increments(deltas).position == bar.total,
{
    lemma_increments(bar, deltas);
}

/// The position of a bar never passes its total and never goes back under a
/// series of increments.
pub proof fn law_increments_monotonic(bar: BarView, deltas: Seq<u32>)
    requires
        bar.wf(),
        bar.style == ProgressBarStyle::Bar,
    ensures
        bar.position <= bar.after_increments(deltas).position <= bar.total,
    decreases deltas.len(),
{
    lemma_increments(bar, deltas);
    if deltas.len() > 0 {
        law_increments_monotonic(bar, deltas.drop_last());
        lemma_increments(bar, deltas.drop_last());
    }
}

/// The style of an element is fixed: no operation on the element changes it.
pub proof fn law_style_is_fixed(
    bar: BarView,
    delta: u32,
    message: Seq<char>,
    inc_index: bool,
    row_position: Option<u16>,
)
    ensures
        bar.advanced(delta).style == bar.style,
        bar.placed(delta).style == bar.style,
        bar.retitled(message).style == bar.style,
        bar.started().style == bar.style,
        bar.stopped().style == bar.style,
        bar.finished().style == bar.style,
        bar.spun(inc_index, row_position).style == bar.style,
        bar.ticked().style == bar.style,
        bar.pushed_down().style == bar.style,
{
}

/// A message that was set is the message that is read, whatever is added to
/// the counter or whatever the counter is set to in between.
pub proof fn law_message_survives_counting(bar: BarView, message: Seq<char>, delta: u32, value: u32)
    ensures
        bar.retitled(message).message == message,
        bar.retitled(message).advanced(delta).message == message,
        bar.retitled(message).placed(value).message == message,
{
}

/// Stopping a spinner, or finishing it, ends its animation: no step of an
/// animation task paints it or moves its frame from then on, and once it is
/// finished the task itself ends. Finishing twice is finishing once.
pub proof fn law_stop_and_finish_end_animation(bar: BarView)
    requires
        bar.wf(),
    ensures
        !bar.stopped().animating(),
        !bar.finished().animating(),
        !bar.finished().running,
        bar.stopped().ticked() == bar.stopped(),
        bar.stopped().tick_plan() == Seq::<PaintView>::empty(),
        bar.finished().ticked() == bar.finished(),
        bar.finished().tick_plan() == Seq::<PaintView>::empty(),
        bar.finished().finished() == bar.finished(),
{
}

/// A hidden element counts what is added to it, up to the largest value its
/// counter can hold, and never paints.
pub proof fn law_hidden_counts(bar: BarView, delta: u32)
    requires
        bar.style == ProgressBarStyle::Hidden,
        bar.position + delta <= u32::MAX,
    ensures
        bar.advanced(delta).position == bar.position + delta,
        bar.advanced(delta).frame() == Seq::<PaintView>::empty(),
{
}

/// A progress element.
#[derive(Debug)]
pub struct ProgressBar {
    style: ProgressBarStyle,
    progress: u32,
    total: u32,
    is_spinning: bool,
    message: String,
    is_spinner_thread_running: bool,
    row: u16,
    interactive: bool,
    rows: u16,
}

impl View for ProgressBar {
    type V = BarView;

    closed spec fn view(&self) -> BarView {
        BarView {
            style: self.style,
            position: self.progress,
            total: self.total,
            message: self.message@,
            row: self.row,
            spinning: self.is_spinning,
            running: self.is_spinner_thread_running,
            interactive: self.interactive,
            rows: self.rows,
        }
    }
}

impl ProgressBar {
    /// The invariant of an element; see [`BarView::wf`].
    pub open spec fn wf(&self) -> bool {
        self@.wf()
    }

    /// Creates a determinate bar that is full at `total`.
    pub fn new(total: u32, screen: Screen) -> (bar: ProgressBar)
        ensures
            bar.wf(),
            bar@ == BarView::fresh(ProgressBarStyle::Bar, total, screen),
    {
        ProgressBar::create(ProgressBarStyle::Bar, total, screen)
    }

    /// Creates a spinner. Its total is 1 and plays no part.
    pub fn new_spinner(screen: Screen) -> (bar: ProgressBar)
        ensures
            bar.wf(),
            bar@ == BarView::fresh(ProgressBarStyle::Spinner, 1, screen),
    {
        ProgressBar::create(ProgressBarStyle::Spinner, 1, screen)
    }

    /// Creates a hidden element. Its total is 1 and plays no part.
    pub fn hidden(screen: Screen) -> (bar: ProgressBar)
        ensures
            bar.wf(),
            bar@ == BarView::fresh(ProgressBarStyle::Hidden, 1, screen),
    {
        ProgressBar::create(ProgressBarStyle::Hidden, 1, screen)
    }

    fn create(style: ProgressBarStyle, total: u32, screen: Screen) -> (bar: ProgressBar)
        ensures
            bar.wf(),
            bar@ == BarView::fresh(style, total, screen),
    {
        let interactive = screen.is_interactive();
        let row: u16 = if interactive {
            screen.get_cursor_row()
        } else {
            0
        };
        ProgressBar {
            style,
            progress: 0,
            total,
            is_spinning: false,
            message: String::new(),
            is_spinner_thread_running: false,
            row,
            interactive,
            rows: screen.get_rows(),
        }
    }

    /// Sets the message and hands the element back, for use while building.
    pub fn with_message(self, msg: &str) -> (bar: ProgressBar)
        ensures
            bar@ == self@.retitled(msg@),
            self.wf() ==> bar.wf(),
    {
        let mut bar = self;
        bar.message = msg.to_owned();
        bar
    }

    /// The style of the element.
    pub fn get_style(&self) -> (style: ProgressBarStyle)
        ensures
            style == self@.style,
    {
        self.style
    }

    /// The current position of the counter.
    pub fn get_position(&self) -> (position: u32)
        ensures
            position == self@.position,
    {
        self.progress
    }

    /// A copy of the current message.
    pub fn get_message(&self) -> (message: String)
        ensures
            message@ == self@.message,
    {
        self.message.clone()
    }

    /// The terminal row the element is painted on.
    pub fn get_row(&self) -> (row: u16)
        ensures
            row == self@.row,
    {
        self.row
    }

    /// Whether the animation, if there is one, repaints the element.
    pub fn is_spinning(&self) -> (spinning: bool)
        ensures
            spinning == self@.spinning,
    {
        self.is_spinning
    }

    /// Whether an animation task exists for the element.
    pub fn is_spinner_thread_running(&self) -> (running: bool)
        ensures
            running == self@.running,
    {
        self.is_spinner_thread_running
    }

    /// Whether the element is being animated; see [`BarView::animating`].
    pub fn is_animating(&self) -> (animating: bool)
        ensures
            animating == self@.animating(),
    {
        self.is_spinner_thread_running && self.is_spinning
    }

    /// Adds `value` to the counter and repaints. A bar stops at its total; a
    /// spinner steps to its next frame whatever the value; a hidden element
    /// counts and paints nothing.
    pub fn increment(&mut self, value: u32) -> (paint: Vec<Paint>)
        requires
            old(self).wf(),
        ensures
            final(self).wf(),
            final(self)@ == old(self)@.advanced(value),
            paint.deep_view() == final(self)@.frame(),
    {
        match self.style {
            ProgressBarStyle::Bar => {
                if value >= self.total - self.progress {
                    self.progress = self.total;
                } else {
                    self.progress = self.progress + value;
                }
            },
            ProgressBarStyle::Hidden => {
                if value >= u32::MAX - self.progress {
                    self.progress = u32::MAX;
                } else {
                    self.progress = self.progress + value;
                }
            },
            ProgressBarStyle::Spinner => {
                self.progress = (self.progress + 1) % SPINNER_FRAMES;
            },
        }
        self.draw()
    }

    /// Sets the counter to `value` and repaints. A bar stops at its total; a
    /// spinner takes the frame the value wraps around to.
    pub fn set_position(&mut self, value: u32) -> (paint: Vec<Paint>)
        requires
            old(self).wf(),
        ensures
            final(self).wf(),
            final(self)@ == old(self)@.placed(value),
            paint.deep_view() == final(self)@.frame(),
    {
        match self.style {
            ProgressBarStyle::Bar => {
                if value >= self.total {
                    self.progress = self.total;
                } else {
                    self.progress = value;
                }
            },
            ProgressBarStyle::Hidden => {
                self.progress = value;
            },
            ProgressBarStyle::Spinner => {
                self.progress = value % SPINNER_FRAMES;
            },
        }
        self.draw()
    }

    /// Replaces the message and repaints.
    pub fn set_message(&mut self, msg: &str) -> (paint: Vec<Paint>)
        requires
            old(self).wf(),
        ensures
            final(self).wf(),
            final(self)@ == old(self)@.retitled(msg@),
            paint.deep_view() == final(self)@.frame(),
    {
        self.message = msg.to_owned();
        self.draw()
    }

    /// Prints a line above the element and draws the element below it. Off a
    /// terminal the plan is the one plain line, for standard output.
    pub fn println(&mut self, message: &str) -> (paint: Vec<Paint>)
        ensures
            final(self)@ == old(self)@.pushed_down(),
            old(self).wf() ==> final(self).wf(),
            paint.deep_view() == old(self)@.line_plan(
                PaintView::Text(message@),
                PaintView::Line(message@),
            ),
    {
        self.print_above(Paint::Text(message.to_owned()), Paint::Line(message.to_owned()))
    }

    /// Prints a line above the element, coloured as an error, and draws the
    /// element below it. Off a terminal the plan is the one plain line, for
    /// standard error.
    pub fn eprintln(&mut self, message: &str) -> (paint: Vec<Paint>)
        ensures
            final(self)@ == old(self)@.pushed_down(),
            old(self).wf() ==> final(self).wf(),
            paint.deep_view() == old(self)@.line_plan(
                PaintView::ErrorText(message@),
                PaintView::ErrorLine(message@),
            ),
    {
        self.print_above(Paint::ErrorText(message.to_owned()), Paint::ErrorLine(message.to_owned()))
    }

    fn print_above(&mut self, text: Paint, fallback: Paint) -> (paint: Vec<Paint>)
        ensures
            final(self)@ == old(self)@.pushed_down(),
            old(self).wf() ==> final(self).wf(),
            paint.deep_view() == old(self)@.line_plan(text.deep_view(), fallback.deep_view()),
    {
        let mut paint: Vec<Paint> = Vec::new();
        if !self.interactive {
            paint.push(fallback);
            assert(paint.deep_view() =~= seq![fallback.deep_view()]);
            return paint;
        }
        if self.rows == 0 || self.row >= self.rows - 1 {
            let above: u16 = if self.row == 0 {
                0
            } else {
                self.row - 1
            };
            paint.push(Paint::ScrollUp(1));
            paint.push(Paint::MoveTo(above));
        } else {
            paint.push(Paint::MoveTo(self.row));
            self.row = self.row + 1;
        }
        paint.push(Paint::ClearLine);
        paint.push(text);
        let ghost head = paint.deep_view();
        extend(&mut paint, self.line());
        assert(paint.deep_view() =~= head + self@.element());
        assert(paint.deep_view() =~= old(self)@.line_plan(text.deep_view(), fallback.deep_view()));
        paint
    }

    /// Starts the animation and hands the element back, for use while
    /// building.
    pub fn with_start_spinner(self) -> (bar: ProgressBar)
        ensures
            bar@ == self@.started(),
            self.wf() ==> bar.wf(),
    {
        let mut bar = self;
        if bar.style == ProgressBarStyle::Spinner {
            bar.is_spinning = true;
            bar.is_spinner_thread_running = true;
        }
        bar
    }

    /// Starts the animation of a spinner; any other element is left alone.
    /// Returns whether an animation task has to be launched: the element is a
    /// spinner and had no task.
    pub fn start_spinner(&mut self) -> (launch: bool)
        ensures
            final(self)@ == old(self)@.started(),
            old(self).wf() ==> final(self).wf(),
            launch == old(self)@.needs_task(),
    {
        if self.style == ProgressBarStyle::Spinner {
            let launch = !self.is_spinner_thread_running;
            self.is_spinning = true;
            self.is_spinner_thread_running = true;
            launch
        } else {
            false
        }
    }

    /// Pauses the animation. The task, if there is one, stays.
    pub fn stop_spinner(&mut self)
        ensures
            final(self)@ == old(self)@.stopped(),
            old(self).wf() ==> final(self).wf(),
    {
        self.is_spinning = false;
    }

    /// Renders the current frame of a spinner on an interactive screen, on
    /// `row_position` if one is given, which the spinner then keeps as its
    /// row; with `inc_index` the spinner steps to its next frame afterwards.
    /// Any other element, and any element off a terminal, is left alone.
    pub fn render_spinner(&mut self, inc_index: bool, row_position: Option<u16>) -> (paint: Vec<
        Paint,
    >)
        requires
            old(self).wf(),
        ensures
            final(self).wf(),
            final(self)@ == old(self)@.spun(inc_index, row_position),
            paint.deep_view() == old(self)@.spun_plan(row_position),
    {
        if self.style != ProgressBarStyle::Spinner || !self.interactive {
            return Vec::new();
        }
        if let Some(row) = row_position {
            self.row = row;
        }
        let paint = self.line();
        if inc_index {
            self.progress = (self.progress + 1) % SPINNER_FRAMES;
        }
        paint
    }

    /// One step of the animation task. Returns whether the task goes on, and
    /// the plan of this step: while the element has a task, the task goes on;
    /// while it is also animated, each step renders a frame and moves to the
    /// next.
    pub fn tick(&mut self) -> (step: (bool, Vec<Paint>))
        requires
            old(self).wf(),
        ensures
            final(self).wf(),
            step.0 == old(self)@.running,
            final(self)@ == old(self)@.ticked(),
            step.1.deep_view() == old(self)@.tick_plan(),
    {
        if !self.is_spinner_thread_running {
            return (false, Vec::new());
        }
        if !self.is_spinning {
            return (true, Vec::new());
        }
        let paint = self.render_spinner(true, None);
        (true, paint)
    }

    /// The plan that repaints the element in place. Empty off a terminal and
    /// for a hidden element.
    pub fn draw(&self) -> (paint: Vec<Paint>)
        ensures
            paint.deep_view() == self@.frame(),
    {
        if !self.interactive {
            Vec::new()
        } else {
            self.line()
        }
    }

    /// The plan that draws the element as a bar on its row, whatever its
    /// style. Empty off a terminal.
    pub fn render_bar(&self) -> (paint: Vec<Paint>)
        ensures
            paint.deep_view() == if self@.interactive {
                self@.bar_line()
            } else {
                Seq::empty()
            },
    {
        if !self.interactive {
            Vec::new()
        } else {
            self.bar()
        }
    }

    /// Finishes the element. A spinner loses its animation task; a second
    /// call changes nothing. Any other element is left alone.
    pub fn finish(&mut self)
        ensures
            final(self)@ == old(self)@.finished(),
            old(self).wf() ==> final(self).wf(),
    {
        if self.style == ProgressBarStyle::Spinner {
            self.is_spinner_thread_running = false;
        }
    }

    /// Finishes the element without a trace. Erasing the row is the work of
    /// the coordinator the element is removed from, so nothing is done here.
    pub fn finish_and_clear(&self) {
    }

    /// The steps that draw the element on its row, by its style.
    pub(crate) fn line(&self) -> (paint: Vec<Paint>)
        ensures
            paint.deep_view() == self@.element(),
    {
        match self.style {
            ProgressBarStyle::Bar => self.bar(),
            ProgressBarStyle::Spinner => {
                let mut paint: Vec<Paint> = Vec::new();
                paint.push(Paint::MoveTo(self.row));
                paint.push(Paint::ClearLine);
                paint.push(
                    Paint::Spinner {
                        glyph: spinner_glyph(self.progress),
                        message: self.message.clone(),
                    },
                );
                assert(paint.deep_view() =~= self@.spinner_line());
                paint
            },
            ProgressBarStyle::Hidden => Vec::new(),
        }
    }

    fn bar(&self) -> (paint: Vec<Paint>)
        ensures
            paint.deep_view() == self@.bar_line(),
    {
        let mut paint: Vec<Paint> = Vec::new();
        paint.push(Paint::MoveTo(self.row));
        paint.push(Paint::ClearLine);
        paint.push(
            Paint::Bar {
                position: self.progress,
                total: self.total,
                message: self.message.clone(),
            },
        );
        assert(paint.deep_view() =~= self@.bar_line());
        paint
    }

    /// Puts the element on the screen of a coordinator, on the given row.
    pub(crate) fn adopt(&mut self, interactive: bool, rows: u16, row: u16)
        ensures
            final(self)@ == (BarView { interactive, rows, row, ..old(self)@ }),
    {
        self.interactive = interactive;
        self.rows = rows;
        self.row = row;
    }
}

} // verus!
