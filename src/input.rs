//! A one-line text input with a cursor and a horizontal scroll offset.

use vstd::prelude::*;
use crate::lines_state::{clamp, sat_add, sat_sub};
use crate::text::string_of_chars;

verus! {

/// The last cursor movement, which the next layout pass scrolls for.
#[derive(Debug, Clone, Copy, PartialEq, Eq, Structural)]
pub enum InputMove {
    Start,
    Left,
    Right,
    End,
    Nil,
}

/// A key as the input box understands it.
#[derive(Debug, Clone, Copy, PartialEq, Eq, Structural)]
pub enum InputKey {
    Backspace,
    Left,
    Right,
    Home,
    End,
    Char(char),
    Other,
}

#[derive(Debug)]
pub struct Input {
    input: Vec<char>,
    cursor_position: usize,
    show_start: usize,
    input_move: InputMove,
}

/// Where the scroll offset goes when the view is laid out `width` columns
/// wide after the movement `m`, and where the cursor ends: the view follows
/// the cursor and never starts after it.
pub open spec fn scrolled(m: InputMove, cursor: int, start: int, len: int, width: int) -> (int, int) {
    let (c, s) = match m {
        InputMove::Start => (0, 0),
        InputMove::Left => if cursor - start > width {
            (cursor, cursor - width)
        } else if cursor <= start {
            (cursor, sat_sub(start, 1))
        } else {
            (cursor, start)
        },
        InputMove::Right => if cursor - start > width {
            (cursor, cursor - width)
        } else if cursor >= sat_sub(sat_add(start, width), 1) {
            (cursor, sat_add(start, 1))
        } else {
            (cursor, start)
        },
        InputMove::End => (sat_sub(len, 1), sat_sub(sat_sub(len, 1), width)),
        InputMove::Nil => (cursor, start),
    };
    if s > c {
        (c, c)
    } else {
        (c, s)
    }
}

impl Input {
    /// The cursor stays within the text and the view never starts after it.
    pub closed spec fn wf(&self) -> bool {
        &&& self.cursor_position <= self.input.len()
        &&& self.show_start <= self.cursor_position
    }

    pub closed spec fn text(&self) -> Seq<char> {
        self.input@
    }

    pub closed spec fn cursor(&self) -> nat {
        self.cursor_position as nat
    }

    pub closed spec fn view_start(&self) -> nat {
        self.show_start as nat
    }

    pub closed spec fn last_move(&self) -> InputMove {
        self.input_move
    }

    pub fn new() -> (r: Input)
        ensures
            r.wf(),
            r.text() == Seq::<char>::empty(),
            r.cursor() == 0,
            r.view_start() == 0,
            r.last_move() == InputMove::Nil,
    {
        Input { input: Vec::new(), cursor_position: 0, show_start: 0, input_move: InputMove::Nil }
    }

    pub fn get_input(&self) -> (r: String)
        ensures
            r@ == self.text(),
    {
        string_of_chars(&self.input)
    }

    /// The cursor position, in characters.
    pub fn cursor_position(&self) -> (r: usize)
        ensures
            r == self.cursor(),
    {
        self.cursor_position
    }

    /// The first visible character.
    pub fn show_start(&self) -> (r: usize)
        ensures
            r == self.view_start(),
    {
        self.show_start
    }

    /// The text from the first visible character on.
    pub fn visible_text(&self) -> (r: String)
        requires
            self.wf(),
        ensures
            r@ == self.text().subrange(self.view_start() as int, self.text().len() as int),
    {
        let mut v: Vec<char> = Vec::new();
        let mut i: usize = self.show_start;
        while i < self.input.len()
            invariant
                self.show_start <= i <= self.input.len(),
                v@ == self.input@.subrange(self.show_start as int, i as int),
            decreases self.input.len() - i,
        {
            v.push(self.input[i]);
            i = i + 1;
            assert(v@ =~= self.input@.subrange(self.show_start as int, i as int));
        }
        string_of_chars(&v)
    }

    fn move_cursor_left(&mut self)
        requires
            old(self).wf(),
        ensures
            final(self).wf(),
            final(self).text() == old(self).text(),
            final(self).cursor() == clamp(sat_sub(old(self).cursor() as int, 1), 0, old(self).text().len() as int),
            final(self).view_start() == if old(self).view_start() > final(self).cursor() {
                final(self).cursor()
            } else {
                old(self).view_start()
            },
            final(self).last_move() == InputMove::Left,
    {
        self.cursor_position = self.cursor_position.saturating_sub(1);
        if self.show_start > self.cursor_position {
            self.show_start = self.cursor_position;
        }
        self.input_move = InputMove::Left;
    }

    fn move_cursor_right(&mut self)
        requires
            old(self).wf(),
        ensures
            final(self).wf(),
            final(self).text() == old(self).text(),
            final(self).cursor() == clamp(sat_add(old(self).cursor() as int, 1), 0, old(self).text().len() as int),
            final(self).view_start() == old(self).view_start(),
            final(self).last_move() == InputMove::Right,
    {
        if self.cursor_position < self.input.len() {
            self.cursor_position = self.cursor_position + 1;
        }
        self.input_move = InputMove::Right;
    }

    /// Inserts `new_char` at the cursor and moves the cursor past it.
    fn enter_char(&mut self, new_char: char)
        requires
            old(self).wf(),
        ensures
            final(self).wf(),
            final(self).text() == old(self).text().insert(old(self).cursor() as int, new_char),
            final(self).cursor() == old(self).cursor() + 1,
            final(self).view_start() == old(self).view_start(),
            final(self).last_move() == InputMove::Right,
    {
        self.input.insert(self.cursor_position, new_char);
        self.move_cursor_right();
    }

    fn move_start(&mut self)
        requires
            old(self).wf(),
        ensures
            final(self).wf(),
            final(self).text() == old(self).text(),
            final(self).cursor() == 0,
            final(self).view_start() == 0,
            final(self).last_move() == old(self).last_move(),
    {
        self.cursor_position = 0;
        self.show_start = 0;
    }

    /// Puts the cursor on the last character and shows the `width`
    /// characters before it.
    fn move_end(&mut self, width: usize)
        requires
            old(self).wf(),
        ensures
            final(self).wf(),
            final(self).text() == old(self).text(),
            final(self).cursor() == sat_sub(old(self).text().len() as int, 1),
            final(self).view_start() == sat_sub(final(self).cursor() as int, width as int),
            final(self).last_move() == old(self).last_move(),
    {
        self.cursor_position = self.input.len().saturating_sub(1);
        self.show_start = self.cursor_position.saturating_sub(width);
    }

    /// Deletes the character before the cursor, if any.
    fn delete_char(&mut self)
        requires
            old(self).wf(),
        ensures
            final(self).wf(),
            old(self).cursor() == 0 ==> *final(self) == *old(self),
            old(self).cursor() > 0 ==> {
                &&& final(self).text() == old(self).text().remove(old(self).cursor() - 1)
                &&& final(self).cursor() == old(self).cursor() - 1
                &&& final(self).view_start() == clamp(
                    sat_sub(old(self).view_start() as int, 1),
                    0,
                    final(self).cursor() as int,
                )
                &&& final(self).last_move() == InputMove::Left
            },
    {
        if self.cursor_position != 0 {
            let current_index = self.cursor_position;
            self.input.remove(current_index - 1);
            self.cursor_position = current_index - 1;
            self.show_start = self.show_start.saturating_sub(1);
            if self.show_start > self.cursor_position {
                self.show_start = self.cursor_position;
            }
            self.input_move = InputMove::Left;
        }
    }

    /// Scrolls the view for the last movement, for a view `width` columns wide.
    pub fn scroll_into_view(&mut self, width: usize)
        requires
            old(self).wf(),
        ensures
            final(self).wf(),
            final(self).text() == old(self).text(),
            (final(self).cursor() as int, final(self).view_start() as int) == scrolled(
                old(self).last_move(),
                old(self).cursor() as int,
                old(self).view_start() as int,
                old(self).text().len() as int,
                width as int,
            ),
            final(self).last_move() == old(self).last_move(),
    {
        match self.input_move {
            InputMove::Start => {
                self.move_start();
            },
            InputMove::Left => {
                if self.cursor_position - self.show_start > width {
                    self.show_start = self.cursor_position - width;
                } else if self.cursor_position <= self.show_start {
                    self.show_start = self.show_start.saturating_sub(1);
                }
            },
            InputMove::Right => {
                if self.cursor_position - self.show_start > width {
                    self.show_start = self.cursor_position - width;
                } else if self.cursor_position >= self.show_start.saturating_add(width).saturating_sub(1) {
                    self.show_start = self.show_start.saturating_add(1);
                }
            },
            InputMove::End => {
                self.move_end(width);
            },
            InputMove::Nil => {},
        }
        if self.show_start > self.cursor_position {
            self.show_start = self.cursor_position;
        }
    }

    /// Edits for one key. Returns whether the key was the input's.
    pub fn handle_key(&mut self, key: InputKey) -> (r: bool)
        requires
            old(self).wf(),
        ensures
            final(self).wf(),
            r == !(key is Other),
            match key {
                InputKey::Char(c) => final(self).text() == old(self).text().insert(old(self).cursor() as int, c)
                    && final(self).cursor() == old(self).cursor() + 1,
                InputKey::Backspace => old(self).cursor() > 0 ==> final(self).text() == old(self).text().remove(
                    old(self).cursor() - 1,
                ) && final(self).cursor() == old(self).cursor() - 1,
                InputKey::Left => final(self).text() == old(self).text() && final(self).cursor() == clamp(
                    sat_sub(old(self).cursor() as int, 1),
                    0,
                    old(self).text().len() as int,
                ),
                InputKey::Right => final(self).text() == old(self).text() && final(self).cursor() == clamp(
                    sat_add(old(self).cursor() as int, 1),
                    0,
                    old(self).text().len() as int,
                ),
                InputKey::Home => final(self).text() == old(self).text() && final(self).last_move()
                    == InputMove::Start && final(self).cursor() == old(self).cursor(),
                InputKey::End => final(self).text() == old(self).text() && final(self).last_move()
                    == InputMove::End && final(self).cursor() == old(self).cursor(),
                InputKey::Other => *final(self) == *old(self),
            },
    {
        match key {
            InputKey::Backspace => {
                self.delete_char();
                true
            },
            InputKey::Left => {
                self.move_cursor_left();
                true
            },
            InputKey::Right => {
                self.move_cursor_right();
                true
            },
            InputKey::Home => {
                self.input_move = InputMove::Start;
                true
            },
            InputKey::End => {
                self.input_move = InputMove::End;
                true
            },
            InputKey::Char(c) => {
                self.enter_char(c);
                true
            },
            InputKey::Other => false,
        }
    }
}

} // verus!
