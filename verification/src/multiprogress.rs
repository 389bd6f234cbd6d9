//! The coordinator: an ordered block of progress elements that share one
//! stretch of terminal rows.
//!
//! A [`MultiProgress`] owns its elements and hands out a [`Handle`] for each.
//! A handle carries the number of its coordinator and the number of its
//! addition: it names one element of one coordinator, and nothing anywhere
//! else.
//!
//! The coordinator keeps the topmost row of the block, the anchor, and gives
//! the element at index `i` the row `anchor + i`. The block is kept inside the
//! screen: where it would pass the last row, the viewport is scrolled and the
//! anchor moves up by as many rows.

use crate::paint::{extend, Paint, PaintView};
use crate::progressbar::{BarView, ProgressBar};
use crate::terminal::Screen;
use vstd::prelude::*;

verus! {

/// Names one element of one [`MultiProgress`]. A handle holds the number of
/// the coordinator that gave it out and the number of the addition it was
/// given out for. It stays valid until its element is removed, is never given
/// out again, and names nothing in any coordinator of another number.
#[derive(Debug, Clone, Copy, PartialEq, Eq, Hash)]
pub struct Handle {
    owner: u64,
    id: u64,
}

impl View for Handle {
    type V = (u64, u64);

    closed spec fn view(&self) -> (u64, u64) {
        (self.owner, self.id)
    }
}

impl DeepView for Handle {
    type V = (u64, u64);

    closed spec fn deep_view(&self) -> (u64, u64) {
        (self.owner, self.id)
    }
}

/// Where a new element goes in the block. Elements are appended at the
/// bottom; no other place is supported.
#[derive(Debug, Clone, Copy, PartialEq, Eq)]
pub enum AddLocation {
    Bottom,
}

/// The number of rows a block of `count` elements needs. An empty block still
/// needs the row its cursor stands on.
pub open spec fn span(count: nat) -> int {
    if count == 0 {
        1
    } else {
        count as int
    }
}

/// The number of lines the viewport has to scroll up so that a block of
/// `count` elements anchored at `anchor` ends inside a screen of `rows` rows:
/// the rows by which the block passes the last row, and never more than the
/// anchor, which cannot move above the first row.
pub open spec fn overflow(anchor: int, count: nat, rows: int) -> int {
    let excess = anchor + span(count) - rows;
    if excess <= 0 {
        0
    } else if excess <= anchor {
        excess
    } else {
        anchor
    }
}

/// The elements as a coordinator holds them: each on the coordinator's
/// screen, the element at index `i` on row `anchor + i`.
pub open spec fn seated(bars: Seq<BarView>, interactive: bool, rows: u16, anchor: int) -> Seq<
    BarView,
> {
    Seq::new(
        bars.len(),
        |i: int| BarView { interactive, rows, row: (anchor + i) as u16, ..bars[i] },
    )
}

/// The steps that draw one element of a block: its line if its row is on the
/// screen, nothing if it is not.
pub open spec fn shown(bar: BarView) -> Seq<PaintView> {
    if bar.row < bar.rows {
        bar.element()
    } else {
        Seq::empty()
    }
}

/// The steps that draw a block: every element in row order.
pub open spec fn block(bars: Seq<BarView>) -> Seq<PaintView>
    decreases bars.len(),
{
    if bars.len() == 0 {
        Seq::empty()
    } else {
        block(bars.drop_last()) + shown(bars.last())
    }
}

/// The mathematical value of a [`MultiProgress`].
pub struct MultiView {
    /// The number of the coordinator, which its handles carry. Coordinators
    /// that live at the same time are told apart by it.
    pub owner: u64,
    /// Whether the block is painted on an interactive terminal.
    pub interactive: bool,
    /// The number of rows of that terminal.
    pub rows: u16,
    /// The topmost row of the block.
    pub anchor: u16,
    /// The numbers of the additions that the elements came with, top to
    /// bottom.
    pub ids: Seq<u64>,
    /// The elements, top to bottom.
    pub bars: Seq<BarView>,
    /// The number of handles given out so far.
    pub issued: u64,
}

impl MultiView {
    /// The invariant of a coordinator.
    ///
    /// Every element has one handle, no handle occurs twice, and every handle
    /// was given out. The elements are valid and seated: on the coordinator's
    /// screen, on consecutive rows from the anchor down. The block ends inside
    /// the screen, or starts on the first row where the screen is too small
    /// for it. Off a terminal the anchor is the first row.
    pub open spec fn wf(self) -> bool {
        &&& self.ids.len() == self.bars.len()
        &&& self.bars.len() <= u16::MAX
        &&& self.ids.no_duplicates()
        &&& forall|i: int| 0 <= i < self.ids.len() ==> self.ids[i] < self.issued
        &&& forall|i: int| 0 <= i < self.bars.len() ==> (#[trigger] self.bars[i]).wf()
        &&& self.bars == seated(self.bars, self.interactive, self.rows, self.anchor as int)
        &&& self.anchor + span(self.bars.len()) <= self.rows || self.anchor == 0
        &&& !self.interactive ==> self.anchor == 0
    }

    /// The number of elements.
    pub open spec fn count(self) -> nat {
        self.bars.len()
    }

    /// Whether one more element can be added: the rows of the elements are
    /// 16-bit numbers and the handles 64-bit numbers, so a coordinator holds
    /// fewer than 65 535 elements at a time and gives out fewer than 2^64
    /// handles in its life.
    pub open spec fn has_room(self) -> bool {
        self.bars.len() < u16::MAX && self.issued < u64::MAX
    }

    /// Whether `handle` names an element: it was given out by this
    /// coordinator, and the element it was given out for is still there. A
    /// handle of another coordinator names no element, whatever its number.
    pub open spec fn contains(self, handle: (u64, u64)) -> bool {
        handle.0 == self.owner && self.ids.contains(handle.1)
    }

    /// The index of the element that `handle` names, if it names one.
    pub open spec fn index_of(self, handle: (u64, u64)) -> int {
        self.ids.index_of(handle.1)
    }

    /// The element that `handle` names, if it names one.
    pub open spec fn bar(self, handle: (u64, u64)) -> BarView {
        self.bars[self.index_of(handle)]
    }

    /// The coordinator of the given number without elements on the given
    /// screen, anchored on the row the cursor stood on.
    pub open spec fn empty(screen: Screen, owner: u64) -> MultiView {
        MultiView {
            owner,
            interactive: screen.interactive(),
            rows: screen.rows(),
            anchor: if screen.interactive() {
                screen.cursor_row()
            } else {
                0
            },
            ids: Seq::empty(),
            bars: Seq::empty(),
            issued: 0,
        }
    }

    /// The coordinator with its anchor moved to `anchor` and its elements
    /// seated again.
    pub open spec fn anchored(self, anchor: int) -> MultiView {
        MultiView {
            anchor: anchor as u16,
            bars: seated(self.bars, self.interactive, self.rows, anchor),
            ..self
        }
    }

    /// The coordinator after `bar` was added at the bottom. The new element
    /// gets the next handle, `(self.owner, self.issued)`. Where the longer
    /// block would pass the last row, the anchor moves up by the overflow.
    pub open spec fn added(self, bar: BarView) -> MultiView {
        let count = self.bars.len() + 1;
        MultiView {
            ids: self.ids.push(self.issued),
            bars: self.bars.push(bar),
            issued: (self.issued + 1) as u64,
            ..self
        }.anchored(self.anchor - overflow(self.anchor as int, count as nat, self.rows as int))
    }

    /// The plan of adding an element: scroll by the overflow, if there is
    /// one, then clear the screen from the row of the new element down, if
    /// that row is on the screen. Empty off a terminal.
    pub open spec fn add_plan(self) -> Seq<PaintView> {
        let count = self.bars.len() + 1;
        let lines = overflow(self.anchor as int, count as nat, self.rows as int);
        let row = self.anchor - lines + self.bars.len();
        if !self.interactive {
            Seq::empty()
        } else {
            scroll(lines) + if row < self.rows {
                seq![PaintView::MoveTo(row as u16), PaintView::ClearBelow]
            } else {
                Seq::empty()
            }
        }
    }

    /// The coordinator after the element that `handle` names was removed. The
    /// elements below it move up one row each. A handle that names no element
    /// changes nothing.
    pub open spec fn removed(self, handle: (u64, u64)) -> MultiView {
        if self.contains(handle) {
            MultiView {
                ids: self.ids.remove(self.index_of(handle)),
                bars: self.bars.remove(self.index_of(handle)),
                ..self
            }.anchored(self.anchor as int)
        } else {
            self
        }
    }

    /// The plan of removing the element that `handle` names: clear the screen
    /// from the anchor down. Empty off a terminal and for a handle that names
    /// no element.
    pub open spec fn remove_plan(self, handle: (u64, u64)) -> Seq<PaintView> {
        if self.contains(handle) && self.interactive {
            seq![PaintView::MoveTo(self.anchor), PaintView::ClearBelow]
        } else {
            Seq::empty()
        }
    }

    /// The coordinator with the element that `handle` names replaced by `bar`. A
    /// handle that names no element changes nothing.
    pub open spec fn with_bar(self, handle: (u64, u64), bar: BarView) -> MultiView {
        if self.contains(handle) {
            MultiView { bars: self.bars.update(self.index_of(handle), bar), ..self }
        } else {
            self
        }
    }

    /// The plan that repaints the element that `handle` names after an update:
    /// draw the element, if its row is on the screen, then put the cursor
    /// back on the anchor. Empty off a terminal and for a handle that names no
    /// element.
    pub open spec fn update_plan(self, handle: (u64, u64)) -> Seq<PaintView> {
        if self.contains(handle) && self.interactive {
            shown(self.bar(handle)) + seq![PaintView::MoveTo(self.anchor)]
        } else {
            Seq::empty()
        }
    }

    /// The handles of the spinners among the first `upto` elements that have
    /// no animation task, top to bottom.
    pub open spec fn waiting(self, upto: int) -> Seq<(u64, u64)>
        decreases upto,
    {
        if upto <= 0 {
            Seq::empty()
        } else {
            let above = self.waiting(upto - 1);
            if self.bars[upto - 1].needs_task() {
                above.push((self.owner, self.ids[upto - 1]))
            } else {
                above
            }
        }
    }

    /// The handles of the spinners for which starting every animation calls
    /// for a new animation task, top to bottom.
    pub open spec fn launches(self) -> Seq<(u64, u64)> {
        self.waiting(self.bars.len() as int)
    }

    /// The coordinator with every element's animation paused.
    pub open spec fn all_stopped(self) -> MultiView {
        MultiView { bars: self.bars.map_values(|bar: BarView| bar.stopped()), ..self }
    }

    /// The coordinator with every spinner's animation started.
    pub open spec fn all_started(self) -> MultiView {
        MultiView { bars: self.bars.map_values(|bar: BarView| bar.started()), ..self }
    }

    /// The coordinator with every element finished.
    pub open spec fn all_finished(self) -> MultiView {
        MultiView { bars: self.bars.map_values(|bar: BarView| bar.finished()), ..self }
    }

    /// The row just below the block, or the last row of the screen where the
    /// block ends there.
    pub open spec fn row_below(self) -> u16 {
        if self.anchor + self.bars.len() < self.rows {
            (self.anchor + self.bars.len()) as u16
        } else if self.rows == 0 {
            0
        } else {
            (self.rows - 1) as u16
        }
    }

    /// The coordinator on a screen that now has `rows` rows. Where the block
    /// would pass the last row, the anchor moves up by the overflow. Off a
    /// terminal nothing changes.
    pub open spec fn refitted(self, rows: u16) -> MultiView {
        if self.interactive {
            MultiView { rows, ..self }.anchored(
                self.anchor - overflow(self.anchor as int, self.bars.len(), rows as int),
            )
        } else {
            self
        }
    }

    /// The plan of fitting the block into a screen of `rows` rows: scroll by
    /// the overflow, if there is one, then put the cursor on the anchor.
    pub open spec fn refit_plan(self, rows: u16) -> Seq<PaintView> {
        if self.interactive {
            scroll(overflow(self.anchor as int, self.bars.len(), rows as int)) + seq![
                PaintView::MoveTo(self.refitted(rows).anchor),
            ]
        } else {
            Seq::empty()
        }
    }

    /// Whether the block still ends inside the screen when it starts `lines`
    /// rows further down.
    pub open spec fn room_below(self, lines: u16) -> bool {
        self.anchor + lines + span(self.bars.len()) <= self.rows
    }

    /// The coordinator after its block gave way to `lines` lines printed
    /// above it: the block moves down where there is room; where there is
    /// none the viewport scrolls instead and the block stays.
    pub open spec fn lowered(self, lines: u16) -> MultiView {
        if self.room_below(lines) {
            self.anchored(self.anchor + lines)
        } else {
            self
        }
    }

    /// The plan of giving way to `lines` lines: nothing where there is room
    /// below, a scroll by `lines` where there is none.
    pub open spec fn lower_plan(self, lines: u16) -> Seq<PaintView> {
        if self.room_below(lines) {
            Seq::empty()
        } else {
            seq![PaintView::ScrollUp(lines)]
        }
    }

    /// The coordinator after a line was printed above its block. Off a
    /// terminal nothing changes.
    pub open spec fn printed(self) -> MultiView {
        if self.interactive {
            self.lowered(1)
        } else {
            self
        }
    }

    /// The plan that prints a line above the block. `text` is the step that
    /// writes the line at the cursor, `fallback` the step that writes it as a
    /// plain line.
    ///
    /// Off a terminal the plan is the fallback alone. On a terminal the line
    /// is written over the first row of the block, the block gives way by one
    /// line, and every element is drawn again on its row.
    pub open spec fn print_plan(self, text: PaintView, fallback: PaintView) -> Seq<PaintView> {
        if self.interactive {
            seq![PaintView::MoveTo(self.anchor), PaintView::ClearLine, text] + self.lower_plan(1)
                + block(self.lowered(1).bars)
        } else {
            seq![fallback]
        }
    }

    /// The plan of one step of the animation task of the element that `handle`
    /// names: the step of the element, if its row is on the screen.
    pub open spec fn tick_plan(self, handle: (u64, u64)) -> Seq<PaintView> {
        if self.contains(handle) && self.bar(handle).row < self.bar(handle).rows {
            self.bar(handle).tick_plan()
        } else {
            Seq::empty()
        }
    }

    /// An index of a valid coordinator is the index of the handle it holds.
    pub proof fn lemma_index_of(self, index: int)
        requires
            self.wf(),
            0 <= index < self.ids.len(),
        ensures
            self.contains((self.owner, self.ids[index])),
            self.index_of((self.owner, self.ids[index])) == index,
    {
        let chosen = self.index_of((self.owner, self.ids[index]));
        assert(0 <= chosen < self.ids.len() && self.ids[chosen] == self.ids[index]);
    }

    /// Replacing the elements by valid ones, each where the one before it sat,
    /// leaves the coordinator valid.
    pub proof fn lemma_replaced(self, bars: Seq<BarView>)
        requires
            self.wf(),
            bars.len() == self.bars.len(),
            forall|i: int|
                0 <= i < bars.len() ==> {
                    &&& (#[trigger] bars[i]).wf()
                    &&& bars[i].row == self.bars[i].row
                    &&& bars[i].interactive == self.bars[i].interactive
                    &&& bars[i].rows == self.bars[i].rows
                },
        ensures
            (MultiView { bars, ..self }).wf(),
    {
        assert(bars =~= seated(bars, self.interactive, self.rows, self.anchor as int)) by {
            assert forall|i: int| 0 <= i < bars.len() implies bars[i] == seated(
                bars,
                self.interactive,
                self.rows,
                self.anchor as int,
            )[i] by {
                assert(self.bars[i] == seated(
                    self.bars,
                    self.interactive,
                    self.rows,
                    self.anchor as int,
                )[i]);
            }
        }
    }

    /// Replacing an element by a valid one that sits where it sat leaves the
    /// coordinator valid, and the handle then names the new element.
    pub proof fn lemma_with_bar(self, handle: (u64, u64), bar: BarView)
        requires
            self.wf(),
            bar.wf(),
            self.contains(handle) ==> bar.row == self.bar(handle).row && bar.interactive == self.bar(
                handle,
            ).interactive && bar.rows == self.bar(handle).rows,
        ensures
            self.with_bar(handle, bar).wf(),
            self.with_bar(handle, bar).contains(handle) == self.contains(handle),
            self.contains(handle) ==> self.with_bar(handle, bar).bar(handle) == bar,
    {
        if self.contains(handle) {
            self.lemma_replaced(self.with_bar(handle, bar).bars);
        }
    }

    /// A coordinator in which the element at `index` was replaced in place,
    /// by a valid element that sits where it sat, is valid, and is the
    /// coordinator with that element replaced through its handle.
    pub proof fn lemma_replaced_at(self, after: MultiView, index: int)
        requires
            self.wf(),
            0 <= index < self.bars.len(),
            after == (MultiView { bars: after.bars, ..self }),
            after.bars =~= self.bars.update(index, after.bars[index]),
            after.bars[index].wf(),
            after.bars[index].row == self.bars[index].row,
            after.bars[index].interactive == self.bars[index].interactive,
            after.bars[index].rows == self.bars[index].rows,
        ensures
            after.wf(),
            after == self.with_bar((self.owner, self.ids[index]), after.bars[index]),
    {
        self.lemma_index_of(index);
        self.lemma_with_bar((self.owner, self.ids[index]), after.bars[index]);
    }

    /// Seating the elements of a valid coordinator at an anchor at which the
    /// block ends inside a screen of `rows` rows, or at the first row, gives
    /// a valid coordinator.
    pub proof fn lemma_anchored(self, rows: u16, anchor: int)
        requires
            self.wf(),
            self.interactive,
            0 <= anchor,
            anchor + span(self.bars.len()) <= rows || anchor == 0,
        ensures
            (MultiView { rows, ..self }).anchored(anchor).wf(),
    {
        let after = (MultiView { rows, ..self }).anchored(anchor);
        assert forall|i: int| 0 <= i < after.bars.len() implies (#[trigger] after.bars[i]).wf() by {
            assert(self.bars[i].wf());
        }
        assert(after.bars =~= seated(
            after.bars,
            after.interactive,
            after.rows,
            after.anchor as int,
        ));
    }
}

/// The step that scrolls the viewport up by `lines`, or no step where there
/// is nothing to scroll.
pub open spec fn scroll(lines: int) -> Seq<PaintView> {
    if lines > 0 {
        seq![PaintView::ScrollUp(lines as u16)]
    } else {
        Seq::empty()
    }
}

/// One change of the set of elements of a coordinator.
pub enum Change {
    /// Add the element at the bottom.
    Add(BarView),
    /// Remove the element that the handle names.
    Remove((u64, u64)),
}

/// The coordinator after a series of changes, in order.
pub open spec fn after_changes(multi: MultiView, changes: Seq<Change>) -> MultiView
    decreases changes.len(),
{
    if changes.len() == 0 {
        multi
    } else {
        let before = after_changes(multi, changes.drop_last());
        match changes.last() {
            Change::Add(bar) => before.added(bar),
            Change::Remove(handle) => before.removed(handle),
        }
    }
}

/// The number of elements that a series of changes adds.
pub open spec fn additions(changes: Seq<Change>) -> nat
    decreases changes.len(),
{
    if changes.len() == 0 {
        0
    } else {
        additions(changes.drop_last()) + if changes.last() is Add {
            1nat
        } else {
            0nat
        }
    }
}

/// The number of elements that a series of changes removes from a
/// coordinator: the removals whose handle names an element when its turn
/// comes.
pub open spec fn removals(multi: MultiView, changes: Seq<Change>) -> nat
    decreases changes.len(),
{
    if changes.len() == 0 {
        0
    } else {
        let before = after_changes(multi, changes.drop_last());
        removals(multi, changes.drop_last()) + match changes.last() {
            Change::Add(_) => 0nat,
            Change::Remove(handle) => if before.contains(handle) {
                1nat
            } else {
                0nat
            },
        }
    }
}

/// Adding appends, in every coordinator, with room or without: the count is
/// one more, the new element comes last under the next number, and it is the
/// given element but for where it sits. The elements that were there keep
/// their order, their handles, their counters, messages and animation.
pub proof fn law_add_appends(multi: MultiView, bar: BarView, i: int)
    requires
        multi.ids.len() == multi.bars.len(),
        0 <= i < multi.count(),
    ensures
        multi.added(bar).count() == multi.count() + 1,
        multi.added(bar).owner == multi.owner,
        multi.added(bar).ids == multi.ids.push(multi.issued),
        multi.added(bar).bars[multi.count() as int].alike(bar),
        multi.added(bar).ids[i] == multi.ids[i],
        multi.added(bar).bars[i].alike(multi.bars[i]),
{
}

/// Adding to a coordinator without elements gives a coordinator with one
/// element, which is the given element but for where it sits.
pub proof fn law_add_first(multi: MultiView, bar: BarView)
    requires
        multi.count() == 0,
    ensures
        multi.added(bar).count() == 1,
        multi.added(bar).bars[0].alike(bar),
{
}

/// A handle of another coordinator names no element here, whatever its
/// number: removing with it, updating through it and a step of an animation
/// task that holds it change nothing and paint nothing.
pub proof fn law_foreign_handle_is_unknown(multi: MultiView, handle: (u64, u64), bar: BarView)
    requires
        handle.0 != multi.owner,
    ensures
        !multi.contains(handle),
        multi.removed(handle) == multi,
        multi.with_bar(handle, bar) == multi,
        multi.remove_plan(handle) == Seq::<PaintView>::empty(),
        multi.update_plan(handle) == Seq::<PaintView>::empty(),
        multi.tick_plan(handle) == Seq::<PaintView>::empty(),
{
}

/// The handles that two coordinators of different numbers give out never
/// name an element of the other, however alike the two coordinators are.
pub proof fn law_handles_stay_at_home(first: MultiView, second: MultiView, bar: BarView)
    requires
        first.owner != second.owner,
    ensures
        !first.contains((second.owner, second.issued)),
        !first.added(bar).contains((second.owner, second.issued)),
        !second.contains((first.owner, first.issued)),
        !second.added(bar).contains((first.owner, first.issued)),
{
}

/// Adding an element makes the count one more.
pub proof fn law_count_after_add(multi: MultiView, bar: BarView)
    ensures
        multi.added(bar).count() == multi.count() + 1,
        multi.added(bar).ids.len() == multi.ids.len() + 1,
{
}

/// Removing an element makes the count one less; removing with a handle that
/// names no element leaves the count as it is.
pub proof fn law_count_after_remove(multi: MultiView, handle: (u64, u64))
    requires
        multi.ids.len() == multi.bars.len(),
    ensures
        multi.removed(handle).count() == if multi.contains(handle) {
            multi.count() - 1
        } else {
            multi.count() as int
        },
        multi.removed(handle).ids.len() == multi.removed(handle).bars.len(),
{
    if multi.contains(handle) {
        let index = multi.index_of(handle);
        assert(0 <= index < multi.ids.len());
    }
}

/// After any series of additions and removals the count is the count before,
/// plus the elements added, minus the elements removed. A removal counts only
/// if its handle named an element, so nothing is counted twice and the count
/// never goes below zero.
pub proof fn law_count_balance(multi: MultiView, changes: Seq<Change>)
    requires
        multi.ids.len() == multi.bars.len(),
    ensures
        after_changes(multi, changes).count() == multi.count() + additions(changes) - removals(
            multi,
            changes,
        ),
        after_changes(multi, changes).ids.len() == after_changes(multi, changes).bars.len(),
    decreases changes.len(),
{
    if changes.len() > 0 {
        law_count_balance(multi, changes.drop_last());
        let before = after_changes(multi, changes.drop_last());
        match changes.last() {
            Change::Add(bar) => {
                law_count_after_add(before, bar);
            },
            Change::Remove(handle) => {
                law_count_after_remove(before, handle);
            },
        }
    }
}

/// A handle names no element once its element was removed, and the
/// coordinator is as valid as it was.
pub proof fn law_removed_is_gone(multi: MultiView, handle: (u64, u64))
    requires
        multi.wf(),
    ensures
        !multi.removed(handle).contains(handle),
        multi.removed(handle).wf(),
{
    if multi.contains(handle) {
        let index = multi.index_of(handle);
        let after = multi.removed(handle);
        assert(0 <= index < multi.ids.len() && multi.ids[index] == handle.1);
        assert forall|i: int| 0 <= i < after.ids.len() implies after.ids[i] != handle.1 by {
            let from = if i < index {
                i
            } else {
                i + 1
            };
            assert(after.ids[i] == multi.ids[from]);
        }
        assert forall|i: int| 0 <= i < after.bars.len() implies (#[trigger] after.bars[i]).wf() by {
            let from = if i < index {
                i
            } else {
                i + 1
            };
            assert(multi.bars[from].wf());
        }
        assert forall|i: int, j: int|
            0 <= i < after.ids.len() && 0 <= j < after.ids.len() && i != j implies after.ids[i]
            != after.ids[j] by {
            let from_i = if i < index {
                i
            } else {
                i + 1
            };
            let from_j = if j < index {
                j
            } else {
                j + 1
            };
            assert(after.ids[i] == multi.ids[from_i]);
            assert(after.ids[j] == multi.ids[from_j]);
        }
        assert forall|i: int| 0 <= i < after.ids.len() implies after.ids[i] < after.issued by {
            let from = if i < index {
                i
            } else {
                i + 1
            };
            assert(after.ids[i] == multi.ids[from]);
        }
        assert(after.bars =~= seated(
            after.bars,
            after.interactive,
            after.rows,
            after.anchor as int,
        ));
    }
}

/// Removing with a handle a second time changes nothing: not the elements,
/// not their count, not what is painted.
pub proof fn law_remove_twice(multi: MultiView, handle: (u64, u64))
    requires
        multi.wf(),
    ensures
        multi.removed(handle).removed(handle) == multi.removed(handle),
        multi.removed(handle).remove_plan(handle) == Seq::<PaintView>::empty(),
{
    law_removed_is_gone(multi, handle);
}

/// An update through the handle of a removed element changes nothing: not the
/// elements, not their count, not what is painted.
pub proof fn law_update_after_remove(multi: MultiView, handle: (u64, u64), bar: BarView)
    requires
        multi.wf(),
    ensures
        multi.removed(handle).with_bar(handle, bar) == multi.removed(handle),
        multi.removed(handle).with_bar(handle, bar).count() == multi.removed(handle).count(),
        multi.removed(handle).update_plan(handle) == Seq::<PaintView>::empty(),
{
    law_removed_is_gone(multi, handle);
}

/// The overflow is a scroll that is enough. It never moves the anchor above
/// the first row. After it a block that the screen can hold ends inside the
/// screen, and a block that the screen cannot hold starts on the first row.
pub proof fn law_overflow_is_enough(anchor: int, count: nat, rows: int)
    requires
        0 <= anchor,
    ensures
        0 <= overflow(anchor, count, rows) <= anchor,
        span(count) <= rows ==> anchor - overflow(anchor, count, rows) + span(count) <= rows,
        span(count) > rows ==> anchor - overflow(anchor, count, rows) == 0,
{
}

/// The overflow is the least scroll that is enough: after any smaller scroll
/// the block still passes the last row.
pub proof fn law_overflow_is_least(anchor: int, count: nat, rows: int, smaller: int)
    requires
        0 <= anchor,
        0 <= smaller < overflow(anchor, count, rows),
    ensures
        anchor - smaller + span(count) > rows,
{
}

/// Where the screen can hold the block, every element stands on a row of the
/// screen.
pub proof fn law_block_on_screen(multi: MultiView, i: int)
    requires
        multi.wf(),
        span(multi.count()) <= multi.rows,
        0 <= i < multi.count(),
    ensures
        multi.bars[i].row < multi.rows,
        shown(multi.bars[i]) == multi.bars[i].element(),
{
    let again = seated(multi.bars, multi.interactive, multi.rows, multi.anchor as int);
    assert(multi.bars[i] == again[i]);
}

/// No two elements of a coordinator stand on the same row.
pub proof fn law_rows_distinct(multi: MultiView, i: int, j: int)
    requires
        multi.wf(),
        0 <= i < multi.count(),
        0 <= j < multi.count(),
        i != j,
    ensures
        multi.bars[i].row != multi.bars[j].row,
        multi.bars[i].row == multi.anchor + i,
        multi.bars[j].row == multi.anchor + j,
{
    let again = seated(multi.bars, multi.interactive, multi.rows, multi.anchor as int);
    assert(multi.bars[i] == again[i]);
    assert(multi.bars[j] == again[j]);
}

/// The handle that an addition gives out names no element before, and names
/// the added element afterwards.
pub proof fn law_added_is_fresh(multi: MultiView, bar: BarView)
    requires
        multi.wf(),
        bar.wf(),
        multi.has_room(),
    ensures
        !multi.contains((multi.owner, multi.issued)),
        multi.added(bar).contains((multi.owner, multi.issued)),
        multi.added(bar).index_of((multi.owner, multi.issued)) == multi.count(),
        multi.added(bar).bar((multi.owner, multi.issued)).alike(bar),
        multi.added(bar).wf(),
{
    let after = multi.added(bar);
    let last = multi.count() as int;
    assert(after.ids[last] == multi.issued);
    assert forall|i: int| 0 <= i < after.bars.len() implies (#[trigger] after.bars[i]).wf() by {
        if i < last {
            assert(multi.bars[i].wf());
        }
    }
    assert(after.bars =~= seated(after.bars, after.interactive, after.rows, after.anchor as int));
    after.lemma_index_of(last);
}

/// A message set through a handle is the message read through it, whatever
/// is added to the counter of that element in between.
pub proof fn law_message_survives_increment(multi: MultiView, handle: (u64, u64), message: Seq<char>, delta: u32)
    requires
        multi.wf(),
        multi.contains(handle),
    ensures
        multi.with_bar(handle, multi.bar(handle).retitled(message)).bar(handle).message == message,
        ({
            let titled = multi.with_bar(handle, multi.bar(handle).retitled(message));
            titled.with_bar(handle, titled.bar(handle).advanced(delta)).bar(handle).message == message
        }),
{
    let index = multi.index_of(handle);
    assert(0 <= index < multi.ids.len() && multi.ids[index] == handle.1);
    let titled = multi.with_bar(handle, multi.bar(handle).retitled(message));
    assert(titled.bars[index].message == message);
}

/// What a pass over all elements does to each of them.
#[derive(Clone, Copy)]
enum Sweep {
    Start,
    Stop,
    Finish,
}

/// The element after a pass of the given kind came by.
spec fn swept(bar: BarView, sweep: Sweep) -> BarView {
    match sweep {
        Sweep::Start => bar.started(),
        Sweep::Stop => bar.stopped(),
        Sweep::Finish => bar.finished(),
    }
}

/// A block of progress elements on one screen.
#[derive(Debug)]
pub struct MultiProgress {
    owner: u64,
    progress_bars: Vec<ProgressBar>,
    ids: Vec<u64>,
    next_id: u64,
    start_row: u16,
    rows: u16,
    interactive: bool,
}

impl View for MultiProgress {
    type V = MultiView;

    closed spec fn view(&self) -> MultiView {
        MultiView {
            owner: self.owner,
            interactive: self.interactive,
            rows: self.rows,
            anchor: self.start_row,
            ids: self.ids@,
            bars: self.progress_bars@.map_values(|bar: ProgressBar| bar@),
            issued: self.next_id,
        }
    }
}

impl MultiProgress {
    /// The invariant of a coordinator; see [`MultiView::wf`].
    pub open spec fn wf(&self) -> bool {
        self@.wf()
    }

    /// Creates a coordinator without elements, anchored on the row the cursor
    /// stood on; off a terminal, on the first row.
    ///
    /// `owner` is the number that the handles of this coordinator carry. Give
    /// every coordinator of a process a number of its own: a handle is then
    /// known only to the coordinator that gave it out. Two coordinators of
    /// the same number cannot tell their handles apart.
    pub fn new(screen: Screen, owner: u64) -> (multi: MultiProgress)
        requires
            screen.wf(),
        ensures
            multi.wf(),
            multi@ == MultiView::empty(screen, owner),
    {
        let interactive = screen.is_interactive();
        let start_row: u16 = if interactive {
            screen.get_cursor_row()
        } else {
            0
        };
        let multi = MultiProgress {
            owner,
            progress_bars: Vec::new(),
            ids: Vec::new(),
            next_id: 0,
            start_row,
            rows: screen.get_rows(),
            interactive,
        };
        assert(multi@.bars =~= Seq::empty());
        assert(multi@.bars =~= seated(
            multi@.bars,
            multi@.interactive,
            multi@.rows,
            multi@.anchor as int,
        ));
        multi
    }

    /// The number of elements.
    pub fn get_progress_bars_count(&self) -> (count: usize)
        ensures
            count == self@.count(),
    {
        self.progress_bars.len()
    }

    /// Whether one more element can be added; see [`MultiView::has_room`].
    pub fn has_room(&self) -> (room: bool)
        ensures
            room == self@.has_room(),
    {
        self.progress_bars.len() < 65535 && self.next_id < u64::MAX
    }

    /// The index of the element that `handle` names, if it names one.
    fn locate(&self, handle: &Handle) -> (found: Option<usize>)
        requires
            self.wf(),
        ensures
            found is Some <==> self@.contains(handle@),
            found matches Some(index) ==> {
                &&& index < self@.ids.len()
                &&& handle@ == (self@.owner, self@.ids[index as int])
                &&& index == self@.index_of(handle@)
                &&& self.progress_bars@[index as int]@ == self@.bar(handle@)
            },
    {
        if handle.owner != self.owner {
            return None;
        }
        let mut index: usize = 0;
        while index < self.ids.len()
            invariant
                self.wf(),
                handle.owner == self.owner,
                index <= self.ids.len(),
                forall|i: int| 0 <= i < index ==> self.ids@[i] != handle.id,
            decreases self.ids.len() - index,
        {
            if self.ids[index] == handle.id {
                return Some(index);
            }
            index = index + 1;
        }
        None
    }

    /// The element that `handle` names, or `None` if it names none: the
    /// element was removed, or another coordinator gave the handle out.
    pub fn get(&self, handle: &Handle) -> (found: Option<&ProgressBar>)
        requires
            self.wf(),
        ensures
            found is Some <==> self@.contains(handle@),
            found matches Some(bar) ==> bar@ == self@.bar(handle@) && bar.wf(),
    {
        match self.locate(handle) {
            Some(index) => Some(&self.progress_bars[index]),
            None => None,
        }
    }

    /// Adds an element at the bottom of the block and returns its handle with
    /// the plan that makes room for it on the screen.
    ///
    /// The element takes the coordinator's screen and the row below the last
    /// element. The coordinator must have room for it; see
    /// [`Self::has_room`].
    pub fn add(&mut self, progress_bar: ProgressBar) -> (added: (Handle, Vec<Paint>))
        requires
            old(self).wf(),
            progress_bar.wf(),
            old(self)@.has_room(),
        ensures
            final(self).wf(),
            final(self)@ == old(self)@.added(progress_bar@),
            final(self)@.count() == old(self)@.count() + 1,
            added.0@ == (old(self)@.owner, old(self)@.issued),
            !old(self)@.contains(added.0@),
            final(self)@.contains(added.0@),
            final(self)@.bar(added.0@).alike(progress_bar@),
            added.1.deep_view() == old(self)@.add_plan(),
    {
        proof {
            law_added_is_fresh(old(self)@, progress_bar@);
        }
        let id = self.next_id;
        let above = self.progress_bars.len();
        let lines = lines_over(self.start_row, above + 1, self.rows);
        let ghost given = progress_bar@;
        let mut progress_bar = progress_bar;
        self.ids.push(id);
        self.next_id = id + 1;
        if lines == 0 {
            // The block stays where it is: only the new element needs a seat.
            progress_bar.adopt(self.interactive, self.rows, self.start_row + above as u16);
            self.progress_bars.push(progress_bar);
        } else {
            self.progress_bars.push(progress_bar);
            self.start_row = self.start_row - lines;
            assert(self@.bars =~= old(self)@.bars.push(given));
            self.seat();
        }
        assert(self@ =~= old(self)@.added(given)) by {
            let before = old(self)@;
            assert(before.bars =~= seated(
                before.bars,
                before.interactive,
                before.rows,
                before.anchor as int,
            ));
            assert(self@.bars =~= before.added(given).bars);
        }
        let mut paint: Vec<Paint> = Vec::new();
        if self.interactive {
            if lines > 0 {
                paint.push(Paint::ScrollUp(lines));
            }
            if self.start_row as u32 + (above as u32) < self.rows as u32 {
                paint.push(Paint::MoveTo(self.start_row + above as u16));
                paint.push(Paint::ClearBelow);
            }
        }
        assert(paint.deep_view() =~= old(self)@.add_plan());
        (Handle { owner: self.owner, id }, paint)
    }

    /// Adds an element as [`Self::add`] does, if the coordinator has room for
    /// it; hands the element back, and changes nothing, if it has none.
    pub fn try_add(&mut self, progress_bar: ProgressBar) -> (added: Result<
        (Handle, Vec<Paint>),
        ProgressBar,
    >)
        requires
            old(self).wf(),
            progress_bar.wf(),
        ensures
            final(self).wf(),
            added is Ok <==> old(self)@.has_room(),
            match added {
                Ok((handle, paint)) => {
                    &&& final(self)@ == old(self)@.added(progress_bar@)
                    &&& handle@ == (old(self)@.owner, old(self)@.issued)
                    &&& paint.deep_view() == old(self)@.add_plan()
                },
                Err(bar) => final(self)@ == old(self)@ && bar@ == progress_bar@,
            },
    {
        if self.has_room() {
            Ok(self.add(progress_bar))
        } else {
            Err(progress_bar)
        }
    }

    /// Adds an element at the given place of the block; see [`Self::add`].
    pub fn add_with_location(&mut self, progress_bar: ProgressBar, location: AddLocation) -> (added:
        (Handle, Vec<Paint>))
        requires
            old(self).wf(),
            progress_bar.wf(),
            old(self)@.has_room(),
        ensures
            final(self).wf(),
            final(self)@ == old(self)@.added(progress_bar@),
            final(self)@.count() == old(self)@.count() + 1,
            added.0@ == (old(self)@.owner, old(self)@.issued),
            !old(self)@.contains(added.0@),
            final(self)@.contains(added.0@),
            final(self)@.bar(added.0@).alike(progress_bar@),
            added.1.deep_view() == old(self)@.add_plan(),
    {
        match location {
            AddLocation::Bottom => self.add(progress_bar),
        }
    }

    /// Removes the element that `handle` names and returns the plan that
    /// erases the block from the screen. The elements below the removed one
    /// move up one row each. A handle that names no element, because the
    /// element was removed before or because another coordinator gave the
    /// handle out, changes nothing.
    pub fn remove(&mut self, handle: &Handle) -> (paint: Vec<Paint>)
        requires
            old(self).wf(),
        ensures
            final(self).wf(),
            final(self)@ == old(self)@.removed(handle@),
            final(self)@.count() == if old(self)@.contains(handle@) {
                old(self)@.count() - 1
            } else {
                old(self)@.count() as int
            },
            !final(self)@.contains(handle@),
            paint.deep_view() == old(self)@.remove_plan(handle@),
            !old(self)@.contains(handle@) ==> final(self)@ == old(self)@ && paint.deep_view()
                == Seq::<PaintView>::empty(),
            handle@.0 != old(self)@.owner ==> final(self)@ == old(self)@ && paint.deep_view()
                == Seq::<PaintView>::empty(),
    {
        proof {
            law_count_after_remove(old(self)@, handle@);
            law_removed_is_gone(old(self)@, handle@);
        }
        match self.locate(handle) {
            Some(index) => {
                self.ids.remove(index);
                self.progress_bars.remove(index);
                assert(self@.bars =~= old(self)@.bars.remove(index as int));
                self.seat();
                assert(self@ =~= old(self)@.removed(handle@));
                let mut paint: Vec<Paint> = Vec::new();
                if self.interactive {
                    paint.push(Paint::MoveTo(self.start_row));
                    paint.push(Paint::ClearBelow);
                }
                assert(paint.deep_view() =~= old(self)@.remove_plan(handle@));
                paint
            },
            None => Vec::new(),
        }
    }

    /// Adds `value` to the counter of the element that `handle` names and
    /// returns the plan that repaints it. A handle that names no element,
    /// because the element was removed or because another coordinator gave
    /// the handle out, changes nothing.
    pub fn increment(&mut self, handle: &Handle, value: u32) -> (paint: Vec<Paint>)
        requires
            old(self).wf(),
        ensures
            final(self).wf(),
            final(self)@ == old(self)@.with_bar(
                handle@,
                old(self)@.bar(handle@).advanced(value),
            ),
            paint.deep_view() == final(self)@.update_plan(handle@),
            !old(self)@.contains(handle@) ==> final(self)@ == old(self)@ && paint.deep_view()
                == Seq::<PaintView>::empty(),
            handle@.0 != old(self)@.owner ==> final(self)@ == old(self)@ && paint.deep_view()
                == Seq::<PaintView>::empty(),
    {
        match self.locate(handle) {
            Some(index) => {
                let drawn = self.progress_bars[index].increment(value);
                proof {
                    old(self)@.lemma_replaced_at(self@, index as int);
                }
                self.repaint(index, drawn)
            },
            None => Vec::new(),
        }
    }

    /// Sets the counter of the element that `handle` names and returns the
    /// plan that repaints it. No other element is touched. A handle that
    /// names no element, because the element was removed or because another
    /// coordinator gave the handle out, changes nothing.
    pub fn set_position(&mut self, handle: &Handle, value: u32) -> (paint: Vec<Paint>)
        requires
            old(self).wf(),
        ensures
            final(self).wf(),
            final(self)@ == old(self)@.with_bar(handle@, old(self)@.bar(handle@).placed(value)),
            paint.deep_view() == final(self)@.update_plan(handle@),
            !old(self)@.contains(handle@) ==> final(self)@ == old(self)@ && paint.deep_view()
                == Seq::<PaintView>::empty(),
            handle@.0 != old(self)@.owner ==> final(self)@ == old(self)@ && paint.deep_view()
                == Seq::<PaintView>::empty(),
    {
        match self.locate(handle) {
            Some(index) => {
                let drawn = self.progress_bars[index].set_position(value);
                proof {
                    old(self)@.lemma_replaced_at(self@, index as int);
                }
                self.repaint(index, drawn)
            },
            None => Vec::new(),
        }
    }

    /// Replaces the message of the element that `handle` names and returns
    /// the plan that repaints it. A handle that names no element, because the
    /// element was removed or because another coordinator gave the handle
    /// out, changes nothing.
    pub fn set_message(&mut self, handle: &Handle, msg: &str) -> (paint: Vec<Paint>)
        requires
            old(self).wf(),
        ensures
            final(self).wf(),
            final(self)@ == old(self)@.with_bar(handle@, old(self)@.bar(handle@).retitled(msg@)),
            paint.deep_view() == final(self)@.update_plan(handle@),
            !old(self)@.contains(handle@) ==> final(self)@ == old(self)@ && paint.deep_view()
                == Seq::<PaintView>::empty(),
            handle@.0 != old(self)@.owner ==> final(self)@ == old(self)@ && paint.deep_view()
                == Seq::<PaintView>::empty(),
    {
        match self.locate(handle) {
            Some(index) => {
                let drawn = self.progress_bars[index].set_message(msg);
                proof {
                    old(self)@.lemma_replaced_at(self@, index as int);
                }
                self.repaint(index, drawn)
            },
            None => Vec::new(),
        }
    }

    /// Starts the animation of the element that `handle` names, if it is a
    /// spinner. Returns whether an animation task has to be launched for it.
    /// A handle that names no element changes nothing and asks for no task.
    pub fn start_spinner(&mut self, handle: &Handle) -> (launch: bool)
        requires
            old(self).wf(),
        ensures
            final(self).wf(),
            final(self)@ == old(self)@.with_bar(handle@, old(self)@.bar(handle@).started()),
            launch == (old(self)@.contains(handle@) && old(self)@.bar(handle@).needs_task()),
            !old(self)@.contains(handle@) ==> final(self)@ == old(self)@,
            handle@.0 != old(self)@.owner ==> final(self)@ == old(self)@ && !launch,
    {
        match self.locate(handle) {
            Some(index) => {
                let launch = self.progress_bars[index].start_spinner();
                proof {
                    old(self)@.lemma_replaced_at(self@, index as int);
                }
                launch
            },
            None => false,
        }
    }

    /// Pauses the animation of the element that `handle` names. A handle
    /// that names no element changes nothing.
    pub fn stop_spinner(&mut self, handle: &Handle)
        requires
            old(self).wf(),
        ensures
            final(self).wf(),
            final(self)@ == old(self)@.with_bar(handle@, old(self)@.bar(handle@).stopped()),
            !old(self)@.contains(handle@) ==> final(self)@ == old(self)@,
            handle@.0 != old(self)@.owner ==> final(self)@ == old(self)@,
    {
        match self.locate(handle) {
            Some(index) => {
                self.progress_bars[index].stop_spinner();
                proof {
                    old(self)@.lemma_replaced_at(self@, index as int);
                }
            },
            None => {},
        }
    }

    /// Finishes the element that `handle` names: a spinner loses its
    /// animation task. A handle that names no element changes nothing.
    pub fn finish(&mut self, handle: &Handle)
        requires
            old(self).wf(),
        ensures
            final(self).wf(),
            final(self)@ == old(self)@.with_bar(handle@, old(self)@.bar(handle@).finished()),
            !old(self)@.contains(handle@) ==> final(self)@ == old(self)@,
            handle@.0 != old(self)@.owner ==> final(self)@ == old(self)@,
    {
        match self.locate(handle) {
            Some(index) => {
                self.progress_bars[index].finish();
                proof {
                    old(self)@.lemma_replaced_at(self@, index as int);
                }
            },
            None => {},
        }
    }

    /// One step of the animation task of the element that `handle` names.
    /// Returns whether the task goes on, and the plan of this step. The task
    /// of an element that was removed ends, and so does a task that holds the
    /// handle of another coordinator.
    pub fn tick(&mut self, handle: &Handle) -> (step: (bool, Vec<Paint>))
        requires
            old(self).wf(),
        ensures
            final(self).wf(),
            final(self)@ == old(self)@.with_bar(handle@, old(self)@.bar(handle@).ticked()),
            step.0 == (old(self)@.contains(handle@) && old(self)@.bar(handle@).running),
            step.1.deep_view() == old(self)@.tick_plan(handle@),
            !old(self)@.contains(handle@) ==> final(self)@ == old(self)@ && !step.0
                && step.1.deep_view() == Seq::<PaintView>::empty(),
            handle@.0 != old(self)@.owner ==> final(self)@ == old(self)@ && !step.0
                && step.1.deep_view() == Seq::<PaintView>::empty(),
    {
        match self.locate(handle) {
            Some(index) => {
                let (keep, drawn) = self.progress_bars[index].tick();
                proof {
                    old(self)@.lemma_replaced_at(self@, index as int);
                }
                let paint = if self.progress_bars[index].get_row() < self.rows {
                    drawn
                } else {
                    Vec::new()
                };
                (keep, paint)
            },
            None => (false, Vec::new()),
        }
    }

    /// Pauses the animation of every element.
    pub fn stop_all_spinners(&mut self)
        requires
            old(self).wf(),
        ensures
            final(self).wf(),
            final(self)@ == old(self)@.all_stopped(),
    {
        self.sweep(Sweep::Stop);
        assert(self@.bars =~= old(self)@.all_stopped().bars);
    }

    /// Starts the animation of every spinner. Returns the handles of the
    /// spinners for which an animation task has to be launched: those that
    /// had none, top to bottom.
    pub fn start_all_spinners(&mut self) -> (launch: Vec<Handle>)
        requires
            old(self).wf(),
        ensures
            final(self).wf(),
            final(self)@ == old(self)@.all_started(),
            launch.deep_view() == old(self)@.launches(),
    {
        let launch = self.sweep(Sweep::Start);
        assert(self@.bars =~= old(self)@.all_started().bars);
        launch
    }

    /// Finishes every element and returns the plan that puts the cursor below
    /// the block, so that what is printed next does not overwrite it.
    pub fn finish_all(&mut self) -> (paint: Vec<Paint>)
        requires
            old(self).wf(),
        ensures
            final(self).wf(),
            final(self)@ == old(self)@.all_finished(),
            paint.deep_view() == if old(self)@.interactive {
                seq![PaintView::MoveTo(old(self)@.row_below())]
            } else {
                Seq::empty()
            },
    {
        self.sweep(Sweep::Finish);
        assert(self@.bars =~= old(self)@.all_finished().bars);
        let mut paint: Vec<Paint> = Vec::new();
        if self.interactive {
            let end: u32 = self.start_row as u32 + self.progress_bars.len() as u32;
            let below: u16 = if end < self.rows as u32 {
                end as u16
            } else if self.rows == 0 {
                0
            } else {
                self.rows - 1
            };
            paint.push(Paint::MoveTo(below));
            assert(paint.deep_view() =~= seq![PaintView::MoveTo(old(self)@.row_below())]);
        }
        paint
    }

    /// Does to every element what `sweep` says, top to bottom. Returns the
    /// handles of the spinners that a start calls a new animation task for.
    fn sweep(&mut self, sweep: Sweep) -> (launch: Vec<Handle>)
        requires
            old(self).wf(),
        ensures
            final(self).wf(),
            final(self)@ == (MultiView {
                bars: old(self)@.bars.map_values(|bar: BarView| swept(bar, sweep)),
                ..old(self)@
            }),
            launch.deep_view() == if sweep is Start {
                old(self)@.launches()
            } else {
                Seq::empty()
            },
    {
        let count = self.progress_bars.len();
        let mut launch: Vec<Handle> = Vec::new();
        let mut index: usize = 0;
        while index < count
            invariant
                old(self).wf(),
                index <= count,
                count == self.progress_bars.len(),
                count == old(self).progress_bars.len(),
                self@ == (MultiView { bars: self@.bars, ..old(self)@ }),
                forall|i: int|
                    0 <= i < index ==> (#[trigger] self.progress_bars@[i])@ == swept(
                        old(self).progress_bars@[i]@,
                        sweep,
                    ),
                forall|i: int|
                    index <= i < count ==> (#[trigger] self.progress_bars@[i])@ == old(
                        self,
                    ).progress_bars@[i]@,
                launch.deep_view() == if sweep is Start {
                    old(self)@.waiting(index as int)
                } else {
                    Seq::empty()
                },
            decreases count - index,
        {
            let ghost before = launch.deep_view();
            match sweep {
                Sweep::Start => {
                    if self.progress_bars[index].start_spinner() {
                        launch.push(Handle { owner: self.owner, id: self.ids[index] });
                        assert(launch.deep_view() =~= before.push(
                            (self.owner, self.ids@[index as int]),
                        ));
                    }
                },
                Sweep::Stop => {
                    self.progress_bars[index].stop_spinner();
                },
                Sweep::Finish => {
                    self.progress_bars[index].finish();
                },
            }
            assert(old(self)@.bars[index as int] == old(self).progress_bars@[index as int]@);
            index = index + 1;
        }
        proof {
            assert(self@.bars =~= old(self)@.bars.map_values(|bar: BarView| swept(bar, sweep)));
            old(self)@.lemma_replaced(self@.bars);
        }
        launch
    }

    /// Fits the block into the screen, which now has `rows` rows, and returns
    /// the plan that puts the cursor on the top row of the block. Where the
    /// block would pass the last row, the viewport is scrolled by exactly the
    /// rows that are missing, and the anchor moves up by as many. Off a
    /// terminal nothing is done.
    pub fn move_cursor_to_top(&mut self, rows: u16) -> (paint: Vec<Paint>)
        requires
            old(self).wf(),
        ensures
            final(self).wf(),
            final(self)@ == old(self)@.refitted(rows),
            paint.deep_view() == old(self)@.refit_plan(rows),
    {
        let mut paint: Vec<Paint> = Vec::new();
        if !self.interactive {
            return paint;
        }
        let lines = lines_over(self.start_row, self.progress_bars.len(), rows);
        self.rows = rows;
        self.start_row = self.start_row - lines;
        self.seat();
        proof {
            old(self)@.lemma_anchored(rows, self@.anchor as int);
        }
        if lines > 0 {
            paint.push(Paint::ScrollUp(lines));
        }
        paint.push(Paint::MoveTo(self.start_row));
        assert(paint.deep_view() =~= old(self)@.refit_plan(rows));
        paint
    }

    /// Gives way to `value` lines printed above the block: moves the block
    /// down where there is room, scrolls the viewport where there is none.
    fn move_down(&mut self, value: u16) -> (paint: Vec<Paint>)
        requires
            old(self).wf(),
            old(self)@.interactive,
        ensures
            final(self).wf(),
            final(self)@ == old(self)@.lowered(value),
            paint.deep_view() == old(self)@.lower_plan(value),
    {
        let count = self.progress_bars.len();
        let needed: u32 = if count == 0 {
            1
        } else {
            count as u32
        };
        let mut paint: Vec<Paint> = Vec::new();
        if self.start_row as u32 + value as u32 + needed <= self.rows as u32 {
            self.start_row = self.start_row + value;
            self.seat();
            proof {
                old(self)@.lemma_anchored(old(self)@.rows, self@.anchor as int);
            }
        } else {
            paint.push(Paint::ScrollUp(value));
            assert(paint.deep_view() =~= seq![PaintView::ScrollUp(value)]);
        }
        paint
    }

    /// The plan that draws every element on its row, top to bottom.
    fn render_all(&self) -> (paint: Vec<Paint>)
        requires
            self.wf(),
        ensures
            paint.deep_view() == block(self@.bars),
    {
        let mut paint: Vec<Paint> = Vec::new();
        let mut index: usize = 0;
        while index < self.progress_bars.len()
            invariant
                self.wf(),
                index <= self.progress_bars.len(),
                paint.deep_view() == block(self@.bars.take(index as int)),
            decreases self.progress_bars.len() - index,
        {
            assert(self.progress_bars@[index as int]@ == self@.bars[index as int]);
            proof {
                let upto = self@.bars.take(index + 1);
                assert(upto.drop_last() =~= self@.bars.take(index as int));
                assert(upto.last() == self@.bars[index as int]);
            }
            if self.progress_bars[index].get_row() < self.rows {
                extend(&mut paint, self.progress_bars[index].line());
            }
            index = index + 1;
        }
        assert(self@.bars.take(index as int) =~= self@.bars);
        paint
    }

    /// The plan that repaints every element in row order, in one pass. Empty
    /// off a terminal.
    pub fn draw_all(&self) -> (paint: Vec<Paint>)
        requires
            self.wf(),
        ensures
            paint.deep_view() == if self@.interactive {
                block(self@.bars)
            } else {
                Seq::empty()
            },
    {
        if self.interactive {
            self.render_all()
        } else {
            Vec::new()
        }
    }

    /// Prints a line above the block and draws the block again below it. Off
    /// a terminal the plan is the one plain line, for standard output.
    pub fn println(&mut self, message: &str) -> (paint: Vec<Paint>)
        requires
            old(self).wf(),
        ensures
            final(self).wf(),
            final(self)@ == old(self)@.printed(),
            paint.deep_view() == old(self)@.print_plan(
                PaintView::Text(message@),
                PaintView::Line(message@),
            ),
    {
        self.print_above(Paint::Text(message.to_owned()), Paint::Line(message.to_owned()))
    }

    /// Prints a line above the block, coloured as an error, and draws the
    /// block again below it. Off a terminal the plan is the one plain line,
    /// for standard output: there the line goes where those of
    /// [`Self::println`] go, and only the colour sets an error apart.
    pub fn eprintln(&mut self, message: &str) -> (paint: Vec<Paint>)
        requires
            old(self).wf(),
        ensures
            final(self).wf(),
            final(self)@ == old(self)@.printed(),
            paint.deep_view() == old(self)@.print_plan(
                PaintView::ErrorText(message@),
                PaintView::Line(message@),
            ),
    {
        self.print_above(Paint::ErrorText(message.to_owned()), Paint::Line(message.to_owned()))
    }

    fn print_above(&mut self, text: Paint, fallback: Paint) -> (paint: Vec<Paint>)
        requires
            old(self).wf(),
        ensures
            final(self).wf(),
            final(self)@ == old(self)@.printed(),
            paint.deep_view() == old(self)@.print_plan(text.deep_view(), fallback.deep_view()),
    {
        let mut paint: Vec<Paint> = Vec::new();
        if !self.interactive {
            paint.push(fallback);
            assert(paint.deep_view() =~= seq![fallback.deep_view()]);
            return paint;
        }
        paint.push(Paint::MoveTo(self.start_row));
        paint.push(Paint::ClearLine);
        paint.push(text);
        let ghost head = paint.deep_view();
        assert(head =~= seq![
            PaintView::MoveTo(old(self)@.anchor),
            PaintView::ClearLine,
            text.deep_view(),
        ]);
        extend(&mut paint, self.move_down(1));
        extend(&mut paint, self.render_all());
        paint
    }

    /// The plan that repaints the element at `index` after an update, from
    /// the plan `drawn` that the element gave for itself.
    fn repaint(&self, index: usize, drawn: Vec<Paint>) -> (paint: Vec<Paint>)
        requires
            self.wf(),
            index < self@.bars.len(),
            drawn.deep_view() == self@.bars[index as int].frame(),
        ensures
            paint.deep_view() == self@.update_plan((self@.owner, self@.ids[index as int])),
    {
        proof {
            self@.lemma_index_of(index as int);
        }
        if !self.interactive {
            return Vec::new();
        }
        assert(self.progress_bars@[index as int]@ == self@.bars[index as int]);
        let mut paint = if self.progress_bars[index].get_row() < self.rows {
            drawn
        } else {
            Vec::new()
        };
        let ghost head = paint.deep_view();
        paint.push(Paint::MoveTo(self.start_row));
        assert(paint.deep_view() =~= head + seq![PaintView::MoveTo(self.start_row)]);
        paint
    }

    /// Seats every element again: on the coordinator's screen, on consecutive
    /// rows from the anchor down.
    fn seat(&mut self)
        requires
            old(self)@.bars.len() <= u16::MAX,
            old(self)@.anchor + span(old(self)@.bars.len()) <= old(self)@.rows || old(
                self,
            )@.anchor == 0,
        ensures
            final(self)@ == old(self)@.anchored(old(self)@.anchor as int),
    {
        let count = self.progress_bars.len();
        let interactive = self.interactive;
        let rows = self.rows;
        let anchor = self.start_row;
        let mut index: usize = 0;
        while index < count
            invariant
                index <= count,
                count == self.progress_bars.len(),
                count <= u16::MAX,
                anchor + span(count as nat) <= rows || anchor == 0,
                self.interactive == interactive,
                old(self).interactive == interactive,
                self.rows == rows,
                old(self).rows == rows,
                self.start_row == anchor,
                old(self).start_row == anchor,
                self.owner == old(self).owner,
                self.ids == old(self).ids,
                self.next_id == old(self).next_id,
                old(self).progress_bars.len() == count,
                forall|i: int|
                    0 <= i < index ==> (#[trigger] self.progress_bars@[i])@ == (BarView {
                        interactive,
                        rows,
                        row: (anchor + i) as u16,
                        ..old(self).progress_bars@[i]@
                    }),
                forall|i: int|
                    index <= i < count ==> (#[trigger] self.progress_bars@[i])@ == old(
                        self,
                    ).progress_bars@[i]@,
            decreases count - index,
        {
            let row: u16 = anchor + index as u16;
            self.progress_bars[index].adopt(interactive, rows, row);
            index = index + 1;
        }
        assert(self@.bars =~= seated(old(self)@.bars, interactive, rows, anchor as int));
    }
}

/// Computes [`overflow`] for a block of `count` elements.
fn lines_over(anchor: u16, count: usize, rows: u16) -> (lines: u16)
    requires
        count <= u16::MAX,
    ensures
        lines == overflow(anchor as int, count as nat, rows as int),
        lines <= anchor,
{
    let needed: u32 = if count == 0 {
        1
    } else {
        count as u32
    };
    let end: u32 = anchor as u32 + needed;
    if end <= rows as u32 {
        0
    } else {
        let excess: u32 = end - rows as u32;
        if excess <= anchor as u32 {
            excess as u16
        } else {
            anchor
        }
    }
}

} // verus!
