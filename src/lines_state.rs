//! Vertical scrolling state of a list of lines: the focused line, the first
//! visible line, the view height and the number of lines.

use vstd::prelude::*;

verus! {

/// `x` saturating-subtracted by `y`, as `usize::saturating_sub` computes it.
pub open spec fn sat_sub(x: int, y: int) -> int {
    if x >= y {
        x - y
    } else {
        0
    }
}

/// `x + y` saturating at `usize::MAX`.
pub open spec fn sat_add(x: int, y: int) -> int {
    if x + y <= usize::MAX {
        x + y
    } else {
        usize::MAX as int
    }
}

/// `x` clamped into `[lo, hi]` (with `lo <= hi`).
pub open spec fn clamp(x: int, lo: int, hi: int) -> int {
    if x < lo {
        lo
    } else if x > hi {
        hi
    } else {
        x
    }
}

/// `x` restricted to `[lo, hi]`.
fn clamp_usize(x: usize, lo: usize, hi: usize) -> (r: usize)
    requires
        lo <= hi,
    ensures
        r == clamp(x as int, lo as int, hi as int),
{
    if x < lo {
        lo
    } else if x > hi {
        hi
    } else {
        x
    }
}

/// Lines `start..end` of a list belong to the block at `index`.
#[derive(Clone, Debug, Copy)]
pub struct IndexedRange {
    pub index: usize,
    pub start: usize,
    pub end: usize,
}

#[derive(Default, Clone, Debug)]
pub struct LinesVerticalState {
    pub show_start: usize,
    pub view_height: u16,
    cur_line: usize,
    end: usize,
}

impl LinesVerticalState {
    /// The focused line.
    pub closed spec fn cur(&self) -> usize {
        self.cur_line
    }

    /// The first visible line.
    pub closed spec fn start(&self) -> usize {
        self.show_start
    }

    /// The number of visible lines.
    pub closed spec fn height(&self) -> u16 {
        self.view_height
    }

    /// The number of lines.
    pub closed spec fn line_count(&self) -> usize {
        self.end
    }

    /// Nothing focused, nothing shown, no lines.
    pub fn new() -> (r: Self)
        ensures
            r.start() == 0,
            r.height() == 0,
            r.cur() == 0,
            r.line_count() == 0,
    {
        LinesVerticalState { show_start: 0, view_height: 0, cur_line: 0, end: 0 }
    }

    /// The focused line's index.
    pub fn cur_line(&self) -> (r: usize)
        ensures
            r == self.cur(),
    {
        self.cur_line
    }

    /// One past the last visible line.
    pub fn show_end(&self) -> (r: usize)
        ensures
            r == sat_add(self.start() as int, self.height() as int),
    {
        self.show_start.saturating_add(self.view_height as usize)
    }

    /// Moves the focus one line down (not past the line count), scrolling
    /// once the focus comes within three lines of the bottom of the view.
    pub fn focus_next(&mut self)
        ensures
            final(self).cur() == clamp(sat_add(old(self).cur() as int, 1), 0, old(self).line_count() as int),
            final(self).start() == if final(self).cur() >= sat_sub(
                sat_add(old(self).start() as int, old(self).height() as int),
                3,
            ) {
                clamp(
                    sat_add(old(self).start() as int, 1),
                    0,
                    sat_sub(old(self).line_count() as int, old(self).height() as int),
                )
            } else {
                old(self).start() as int
            },
            final(self).height() == old(self).height(),
            final(self).line_count() == old(self).line_count(),
    {
        self.cur_line = clamp_usize(self.cur_line.saturating_add(1), 0, self.end);
        if self.cur_line >= self.show_end().saturating_sub(3) {
            self.show_start = clamp_usize(
                self.show_start.saturating_add(1),
                0,
                self.end.saturating_sub(self.view_height as usize),
            );
        }
    }

    /// Moves the focus one line up, scrolling up when the focus is at least
    /// three lines below the top of the view.
    pub fn focus_prev(&mut self)
        ensures
            final(self).cur() == clamp(sat_sub(old(self).cur() as int, 1), 0, old(self).line_count() as int),
            final(self).start() == if final(self).cur() >= sat_add(old(self).start() as int, 3) {
                clamp(
                    sat_sub(old(self).start() as int, 1),
                    0,
                    sat_sub(old(self).line_count() as int, old(self).height() as int),
                )
            } else {
                old(self).start() as int
            },
            final(self).height() == old(self).height(),
            final(self).line_count() == old(self).line_count(),
    {
        self.cur_line = clamp_usize(self.cur_line.saturating_sub(1), 0, self.end);
        if self.cur_line >= self.show_start.saturating_add(3) {
            self.show_start = clamp_usize(
                self.show_start.saturating_sub(1),
                0,
                self.end.saturating_sub(self.view_height as usize),
            );
        }
    }

    /// Sets the number of lines, keeping the view within them.
    pub fn update_end(&mut self, end: usize)
        ensures
            final(self).line_count() == end,
            final(self).start() == clamp(
                old(self).start() as int,
                0,
                sat_sub(end as int, old(self).height() as int),
            ),
            final(self).height() == old(self).height(),
            final(self).cur() == old(self).cur(),
    {
        self.end = end;
        self.show_start = clamp_usize(self.show_start, 0, self.end.saturating_sub(self.view_height as usize));
    }

    /// Sets the view height, keeping the focused line visible.
    pub fn update_view_height(&mut self, view_height: u16)
        ensures
            final(self).height() == view_height,
            final(self).start() == clamp(
                old(self).start() as int,
                sat_sub(old(self).cur() as int, view_height as int),
                old(self).cur() as int,
            ),
            final(self).cur() == old(self).cur(),
            final(self).line_count() == old(self).line_count(),
    {
        self.view_height = view_height;
        self.show_start = clamp_usize(
            self.show_start,
            self.cur_line.saturating_sub(self.view_height as usize),
            self.cur_line,
        );
    }
}

} // verus!
