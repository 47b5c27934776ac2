//! Focus and scrolling over a column of blocks of lines (each block a group
//! of lines with a border): which block holds the focused line, how focus
//! moves between blocks, and which part of each block is visible.

use vstd::prelude::*;
use crate::lines_state::{IndexedRange, clamp, sat_add, sat_sub};

verus! {

/// The block at position `i` of `blocks` that holds line `cur`, searching
/// from `i` on.
pub open spec fn first_containing(blocks: Seq<IndexedRange>, cur: usize, i: nat) -> Option<nat>
    decreases blocks.len() - i,
{
    if i >= blocks.len() {
        None
    } else if blocks[i as int].start <= cur < blocks[i as int].end {
        Some(i)
    } else {
        first_containing(blocks, cur, i + 1)
    }
}

/// Blocks laid out one after the other from line 0: block `i` covers
/// `starts_i..starts_i + heights_i`, the sum saturating.
pub open spec fn laid_out(blocks: Seq<IndexedRange>) -> bool {
    &&& forall|i: int| 0 <= i < blocks.len() ==> (#[trigger] blocks[i]).index == i
    &&& forall|i: int| 0 <= i < blocks.len() ==> (#[trigger] blocks[i]).start <= blocks[i].end
    &&& blocks.len() > 0 ==> blocks[0].start == 0
    &&& forall|i: int| 0 < i < blocks.len() ==> (#[trigger] blocks[i]).start == blocks[i - 1].end
}

/// The focus and scroll position over a column of blocks.
#[derive(Default, Debug, Clone)]
pub struct BlockFocus {
    pub show_start: usize,
    view_height: u16,
    cur_line: usize,
    blocks: Vec<IndexedRange>,
}

/// Where (part of) a block lands in the view: its row in the view, its
/// height there, and the first and last of its own rows shown when it is cut.
#[derive(Debug, Clone, Copy, PartialEq, Eq, Structural)]
pub struct Placement {
    pub row: usize,
    pub height: usize,
    pub first_row: Option<usize>,
    pub last_row: Option<usize>,
}

impl BlockFocus {
    pub closed spec fn wf(&self) -> bool {
        laid_out(self.blocks@)
    }

    pub closed spec fn start(&self) -> usize {
        self.show_start
    }

    pub closed spec fn height(&self) -> u16 {
        self.view_height
    }

    pub closed spec fn cur(&self) -> usize {
        self.cur_line
    }

    pub closed spec fn ranges(&self) -> Seq<IndexedRange> {
        self.blocks@
    }

    pub closed spec fn spec_show_end(&self) -> int {
        sat_add(self.show_start as int, self.view_height as int)
    }

    pub fn new() -> (r: Self)
        ensures
            r.wf(),
            r.start() == 0,
            r.height() == 0,
            r.cur() == 0,
            r.ranges() == Seq::<IndexedRange>::empty(),
    {
        BlockFocus { show_start: 0, view_height: 0, cur_line: 0, blocks: Vec::new() }
    }

    pub fn show_end(&self) -> (r: usize)
        ensures
            r == self.spec_show_end(),
    {
        self.show_start.saturating_add(self.view_height as usize)
    }

    /// The blocks' ranges, in order.
    pub fn blocks(&self) -> (r: &Vec<IndexedRange>)
        ensures
            r@ == self.ranges(),
    {
        &self.blocks
    }

    /// The range of the block holding the focused line, if any.
    pub fn focused(&self) -> (r: Option<IndexedRange>)
        ensures
            match first_containing(self.ranges(), self.cur(), 0) {
                Some(i) => r == Some(self.ranges()[i as int]),
                None => r is None,
            },
    {
        let mut i: usize = 0;
        while i < self.blocks.len()
            invariant
                i <= self.blocks.len(),
                first_containing(self.blocks@, self.cur_line, 0) == first_containing(
                    self.blocks@,
                    self.cur_line,
                    i as nat,
                ),
            decreases self.blocks.len() - i,
        {
            let r = self.blocks[i];
            if r.start <= self.cur_line && self.cur_line < r.end {
                return Some(r);
            }
            i = i + 1;
        }
        None
    }

    pub fn focused_index(&self) -> (r: Option<usize>)
        requires
            self.wf(),
        ensures
            match first_containing(self.ranges(), self.cur(), 0) {
                Some(i) => r == Some(i as usize),
                None => r is None,
            },
    {
        match self.focused() {
            Some(e) => {
                proof {
                    lemma_first_containing_in_range(self.ranges(), self.cur(), 0);
                }
                Some(e.index)
            },
            None => None,
        }
    }

    /// Sets the view height, keeping the focused line visible.
    pub fn update_view_height(&mut self, view_height: u16)
        ensures
            final(self).height() == view_height,
            final(self).start() == clamp(
                old(self).start() as int,
                sat_sub(old(self).cur() as int, view_height as int),
                old(self).cur() as int,
            ),
            final(self).cur() == old(self).cur(),
            final(self).ranges() == old(self).ranges(),
    {
        self.view_height = view_height;
        let lo = self.cur_line.saturating_sub(self.view_height as usize);
        if self.show_start < lo {
            self.show_start = lo;
        } else if self.show_start > self.cur_line {
            self.show_start = self.cur_line;
        }
    }

    /// Lays blocks of the given heights out one after the other.
    pub fn update_blocks(&mut self, heights: &Vec<usize>)
        ensures
            final(self).wf(),
            final(self).ranges().len() == heights@.len(),
            forall|i: int|
                0 <= i < heights@.len() ==> (#[trigger] final(self).ranges()[i]).end == sat_add(
                    final(self).ranges()[i].start as int,
                    heights@[i] as int,
                ),
            final(self).start() == old(self).start(),
            final(self).cur() == old(self).cur(),
            final(self).height() == old(self).height(),
    {
        let mut visited: usize = 0;
        let mut new_blocks: Vec<IndexedRange> = Vec::new();
        let mut index: usize = 0;
        while index < heights.len()
            invariant
                index <= heights.len(),
                new_blocks@.len() == index,
                laid_out(new_blocks@),
                index > 0 ==> visited == new_blocks@[index - 1].end,
                index == 0 ==> visited == 0,
                forall|i: int|
                    0 <= i < index ==> (#[trigger] new_blocks@[i]).end == sat_add(
                        new_blocks@[i].start as int,
                        heights@[i] as int,
                    ),
            decreases heights.len() - index,
        {
            let end = visited.saturating_add(heights[index]);
            let pos = IndexedRange { index, start: visited, end };
            visited = end;
            new_blocks.push(pos);
            index = index + 1;
        }
        self.blocks = new_blocks;
    }

    /// Moves the focus down: one line within a block taller than the view,
    /// else to the start of the next block, scrolling to show it.
    pub fn focus_next(&mut self)
        requires
            old(self).wf(),
        ensures
            final(self).wf(),
            final(self).ranges() == old(self).ranges(),
            final(self).height() == old(self).height(),
            (final(self).start() as int, final(self).cur() as int) == next_focus(
                old(self).ranges(),
                old(self).start() as int,
                old(self).cur() as int,
                old(self).height() as int,
            ),
    {
        match self.focused() {
            Some(range) => {
                if range.end > self.show_end() {
                    self.show_start = self.show_start.saturating_add(1);
                    self.cur_line = self.cur_line.saturating_add(1);
                } else {
                    let ni = range.index.saturating_add(1);
                    if ni < self.blocks.len() {
                        let next = self.blocks[ni];
                        self.cur_line = next.start;
                        if next.end >= self.show_end() {
                            self.show_start = next.end.saturating_sub(self.view_height as usize);
                        }
                    }
                }
            },
            None => {},
        }
        let n = self.blocks.len();
        if n > 0 {
            let last = self.blocks[n - 1];
            let bound = last.end.saturating_sub(self.view_height as usize);
            if bound < self.show_start {
                self.show_start = bound;
            }
            let last_line = last.end.saturating_sub(1);
            if last_line < self.cur_line {
                self.cur_line = last_line;
            }
        }
    }

    /// Moves the focus up: one line when the focused block starts above the
    /// view, else to the start of the previous block.
    pub fn focus_prev(&mut self)
        requires
            old(self).wf(),
        ensures
            final(self).wf(),
            final(self).ranges() == old(self).ranges(),
            final(self).height() == old(self).height(),
            (final(self).start() as int, final(self).cur() as int) == prev_focus(
                old(self).ranges(),
                old(self).start() as int,
                old(self).cur() as int,
                old(self).height() as int,
            ),
    {
        match self.focused() {
            Some(range) => {
                if range.end <= self.show_start {
                    self.show_start = self.show_start.saturating_sub(1);
                    self.cur_line = self.cur_line.saturating_sub(1);
                } else {
                    let pi = range.index.saturating_sub(1);
                    if pi < self.blocks.len() {
                        let previous = self.blocks[pi];
                        if previous.start < self.show_end() {
                            self.cur_line = previous.start;
                        }
                        if previous.start <= self.show_start {
                            self.show_start = previous.start.saturating_sub(self.view_height as usize);
                        }
                    }
                }
            },
            None => {},
        }
    }
}

proof fn lemma_first_containing_in_range(blocks: Seq<IndexedRange>, cur: usize, i: nat)
    ensures
        first_containing(blocks, cur, i) matches Some(k) ==> i <= k < blocks.len() && blocks[k as int].start
            <= cur < blocks[k as int].end,
    decreases blocks.len() - i,
{
    if i < blocks.len() {
        lemma_first_containing_in_range(blocks, cur, i + 1);
    }
}

/// The scroll position and focused line after moving the focus down.
pub open spec fn next_focus(blocks: Seq<IndexedRange>, start: int, cur: int, height: int) -> (int, int) {
    let show_end = sat_add(start, height);
    let (s1, c1) = match first_containing(blocks, cur as usize, 0) {
        Some(i) => {
            let range = blocks[i as int];
            if range.end > show_end {
                (sat_add(start, 1), sat_add(cur, 1))
            } else {
                let ni = sat_add(range.index as int, 1);
                if ni < blocks.len() {
                    let next = blocks[ni];
                    (if next.end >= show_end { sat_sub(next.end as int, height) } else { start }, next.start as int)
                } else {
                    (start, cur)
                }
            }
        },
        None => (start, cur),
    };
    if blocks.len() > 0 {
        let last = blocks.last();
        let bound = sat_sub(last.end as int, height);
        let last_line = sat_sub(last.end as int, 1);
        (if bound < s1 { bound } else { s1 }, if last_line < c1 { last_line } else { c1 })
    } else {
        (s1, c1)
    }
}

/// The scroll position and focused line after moving the focus up.
pub open spec fn prev_focus(blocks: Seq<IndexedRange>, start: int, cur: int, height: int) -> (int, int) {
    let show_end = sat_add(start, height);
    match first_containing(blocks, cur as usize, 0) {
        Some(i) => {
            let range = blocks[i as int];
            if range.end <= start {
                (sat_sub(start, 1), sat_sub(cur, 1))
            } else {
                let pi = sat_sub(range.index as int, 1);
                if pi < blocks.len() {
                    let previous = blocks[pi];
                    (
                        if previous.start <= start { sat_sub(previous.start as int, height) } else { start },
                        if previous.start < show_end { previous.start as int } else { cur },
                    )
                } else {
                    (start, cur)
                }
            }
        },
        None => (start, cur),
    }
}

/// Where the part of `range` inside the view `show_start..show_end` lands,
/// or `None` when the block lies wholly outside it.
pub open spec fn placement_of(range: IndexedRange, show_start: int, show_end: int) -> Option<Placement> {
    if range.end < show_start || range.start > show_end {
        None
    } else {
        Some(
            Placement {
                row: (if show_start > range.start { 0 } else { range.start - show_start }) as usize,
                first_row: if show_start > range.start {
                    Some((show_start - range.start) as usize)
                } else {
                    None
                },
                height: (if show_end >= range.end {
                    range.end - range.start
                } else {
                    sat_sub(show_end, range.start as int)
                }) as usize,
                last_row: if show_end >= range.end {
                    None
                } else {
                    Some(sat_sub(show_end, range.start as int) as usize)
                },
            },
        )
    }
}

/// Where a block lands in the view.
pub fn placement(range: IndexedRange, show_start: usize, show_end: usize) -> (r: Option<Placement>)
    requires
        range.start <= range.end,
    ensures
        r == placement_of(range, show_start as int, show_end as int),
{
    if range.end < show_start || range.start > show_end {
        return None;
    }
    let row: usize;
    let mut first_row: Option<usize> = None;
    if show_start > range.start {
        row = 0;
        first_row = Some(show_start - range.start);
    } else {
        row = range.start - show_start;
    }
    let height: usize;
    let mut last_row: Option<usize> = None;
    if show_end >= range.end {
        height = range.end - range.start;
    } else {
        height = show_end.saturating_sub(range.start);
        last_row = Some(show_end.saturating_sub(range.start));
    }
    Some(Placement { row, height, first_row, last_row })
}

} // verus!
