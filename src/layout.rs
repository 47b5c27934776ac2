//! The sidebar-and-page layout's navigation: a column of resource overviews
//! on the left, the focused resource's page on the right, and the arrow keys
//! moving between and within them.

use vstd::prelude::*;
use crate::blocks::{BlockFocus, first_containing};

verus! {

/// What an overview is rendered with.
#[derive(Debug, Clone, Copy)]
pub struct OverviewArg {
    pub width: u16,
    pub focused: bool,
}

/// The navigation keys.
#[derive(Debug, Clone, Copy, PartialEq, Eq, Structural)]
pub enum NavKey {
    Up,
    Down,
    Left,
    Right,
    Other,
}

/// What the focused page must do with a key it is handed.
#[derive(Debug, Clone, Copy, PartialEq, Eq, Structural)]
pub enum PageMove {
    Prev,
    Next,
}

/// The sidebar's focus and scroll, and whether the page has the focus.
#[derive(Debug, Default)]
pub struct SidebarAndPage {
    pub sidebar_state: BlockFocus,
    pub page_focused: bool,
}

/// The resource whose page is shown: the focused overview, else the first.
pub open spec fn shown_resource(s: BlockFocus) -> usize {
    match first_containing(s.ranges(), s.cur(), 0) {
        Some(i) => i as usize,
        None => 0,
    }
}

impl SidebarAndPage {
    pub fn new() -> (r: Self)
        ensures
            r.sidebar_state.wf(),
            r.sidebar_state.ranges() == Seq::<crate::lines_state::IndexedRange>::empty(),
            !r.page_focused,
    {
        SidebarAndPage { sidebar_state: BlockFocus::new(), page_focused: false }
    }

    /// The index of the resource whose page is shown.
    pub fn focused_resource(&self) -> (r: usize)
        requires
            self.sidebar_state.wf(),
        ensures
            r == shown_resource(self.sidebar_state),
    {
        match self.sidebar_state.focused_index() {
            Some(i) => i,
            None => 0,
        }
    }

    pub fn focus_left(&mut self)
        ensures
            !final(self).page_focused,
            final(self).sidebar_state == old(self).sidebar_state,
    {
        self.page_focused = false;
    }

    pub fn focus_right(&mut self)
        ensures
            final(self).page_focused,
            final(self).sidebar_state == old(self).sidebar_state,
    {
        self.page_focused = true;
    }

    /// Handles a navigation key. Left and right move the focus between the
    /// sidebar and the page; up and down move within whichever has it. When
    /// the page has it, the result names the resource and the move its page
    /// must make.
    pub fn handle_key(&mut self, key: NavKey) -> (r: Option<(usize, PageMove)>)
        requires
            old(self).sidebar_state.wf(),
        ensures
            final(self).sidebar_state.wf(),
            final(self).sidebar_state.ranges() == old(self).sidebar_state.ranges(),
            match key {
                NavKey::Left => r is None && !final(self).page_focused && final(self).sidebar_state
                    == old(self).sidebar_state,
                NavKey::Right => r is None && final(self).page_focused && final(self).sidebar_state
                    == old(self).sidebar_state,
                NavKey::Up | NavKey::Down => if old(self).page_focused {
                    &&& r == Some((shown_resource(old(self).sidebar_state), if key == NavKey::Up {
                        PageMove::Prev
                    } else {
                        PageMove::Next
                    }))
                    &&& *final(self) == *old(self)
                } else {
                    &&& r is None
                    &&& !final(self).page_focused
                    &&& final(self).sidebar_state.height() == old(self).sidebar_state.height()
                },
                NavKey::Other => r is None && *final(self) == *old(self),
            },
    {
        match key {
            NavKey::Left => {
                self.focus_left();
                None
            },
            NavKey::Right => {
                self.focus_right();
                None
            },
            NavKey::Up => {
                if self.page_focused {
                    Some((self.focused_resource(), PageMove::Prev))
                } else {
                    self.sidebar_state.focus_prev();
                    None
                }
            },
            NavKey::Down => {
                if self.page_focused {
                    Some((self.focused_resource(), PageMove::Next))
                } else {
                    self.sidebar_state.focus_next();
                    None
                }
            },
            NavKey::Other => None,
        }
    }
}

} // verus!
