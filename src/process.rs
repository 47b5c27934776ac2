//! The process table's columns: their widths, how a value is fitted into a
//! column, the header labels, and the sort order toggled by the user.

use vstd::prelude::*;
use crate::text::{chars_of, string_of_chars};

verus! {

/// The identity of the process table, which its responses are routed by.
pub const PROCESS_ID: &'static str = "PROCESS";

/// Messages to the process-listing worker.
#[derive(Debug, Clone)]
pub enum ProcessMsg {
    /// Enumerate the processes again.
    Detect,
    /// Show only processes whose command line contains this text; empty
    /// shows all.
    Filter(String),
    /// Send the current list again, in the current order.
    ReadOnly,
}

/// A signal the user can send to a process.
#[derive(Debug, Clone, Copy, PartialEq, Eq, Structural)]
pub enum ProcessAction {
    TERM,
    STOP,
    KILL,
    CONT,
}

impl ProcessAction {
    /// The action's name.
    pub fn name(&self) -> (r: &'static str)
        ensures
            r@ == match *self {
                ProcessAction::TERM => "TERM"@,
                ProcessAction::STOP => "STOP"@,
                ProcessAction::KILL => "KILL"@,
                ProcessAction::CONT => "CONT"@,
            },
    {
        match self {
            ProcessAction::TERM => "TERM",
            ProcessAction::STOP => "STOP",
            ProcessAction::KILL => "KILL",
            ProcessAction::CONT => "CONT",
        }
    }
}

/// A column of the process table.
#[derive(Clone, Copy, PartialEq, Eq, Debug, Structural)]
pub enum ProcessCell {
    PID,
    PRG,
    USER,
    CMD,
    MEM,
    CPU,
    READ,
    WRITE,
    TIME,
}

/// What unicode_width's `UnicodeWidthChar::width` returns for `c`.
pub uninterp spec fn char_width_of(c: char) -> Option<usize>;

/// Relies on unicode_width's `UnicodeWidthChar::width`: the number of
/// terminal columns `c` takes, `None` for a control character.
#[verifier::external_body]
fn char_width(c: char) -> (r: Option<usize>)
    ensures
        r == char_width_of(c),
{
    unicode_width::UnicodeWidthChar::width(c)
}

pub open spec fn cell_width(c: ProcessCell) -> u16 {
    match c {
        ProcessCell::PID => 9,
        ProcessCell::PRG => 11,
        ProcessCell::USER => 6,
        ProcessCell::CMD => 200,
        ProcessCell::MEM => 7,
        ProcessCell::CPU => 6,
        ProcessCell::READ => 7,
        ProcessCell::WRITE => 7,
        ProcessCell::TIME => 20,
    }
}

pub open spec fn cell_label(c: ProcessCell) -> Seq<char> {
    match c {
        ProcessCell::PID => "PID"@,
        ProcessCell::PRG => "NAME"@,
        ProcessCell::USER => "USER"@,
        ProcessCell::CMD => "CMD"@,
        ProcessCell::MEM => "MEM"@,
        ProcessCell::CPU => "CPU"@,
        ProcessCell::READ => "READ"@,
        ProcessCell::WRITE => "WRIT"@,
        ProcessCell::TIME => "TIME"@,
    }
}

/// Scanning `widths` from `i` with `acc` columns used: how many characters
/// fit in `limit` columns, and how many columns they take. Characters
/// without a width take none.
pub open spec fn fit(widths: Seq<Option<usize>>, i: nat, acc: nat, limit: nat) -> (nat, nat)
    decreases widths.len() - i,
{
    if i >= widths.len() {
        (widths.len(), acc)
    } else {
        match widths[i as int] {
            Some(w) => if acc + w > limit {
                (i, acc)
            } else {
                fit(widths, i + 1, (acc + w) as nat, limit)
            },
            None => fit(widths, i + 1, acc, limit),
        }
    }
}

pub open spec fn spaces(n: nat) -> Seq<char> {
    Seq::new(n, |i: int| ' ')
}

/// `text` fitted into a column `total` wide: cut to what fits in two columns
/// less, then padded with spaces to the full width.
pub open spec fn fitted(text: Seq<char>, widths: Seq<Option<usize>>, total: nat) -> Seq<char> {
    let limit = if total >= 2 { (total - 2) as nat } else { 0 };
    let (count, used) = fit(widths, 0, 0, limit);
    text.take(count as int) + spaces(if total >= used { (total - used) as nat } else { 0 })
}

proof fn lemma_fit_bounds(widths: Seq<Option<usize>>, i: nat, acc: nat, limit: nat)
    requires
        i <= widths.len(),
        acc <= limit,
    ensures
        i <= fit(widths, i, acc, limit).0 <= widths.len(),
        acc <= fit(widths, i, acc, limit).1 <= limit,
    decreases widths.len() - i,
{
    if i < widths.len() {
        match widths[i as int] {
            Some(w) => if acc + w <= limit {
                lemma_fit_bounds(widths, i + 1, (acc + w) as nat, limit);
            },
            None => lemma_fit_bounds(widths, i + 1, acc, limit),
        }
    }
}

/// Fits `text` into a column `total_width` wide, given the column width of
/// each of its characters.
pub fn fit_columns(text: &Vec<char>, widths: &Vec<Option<usize>>, total_width: u16) -> (r: String)
    requires
        text.len() == widths.len(),
    ensures
        r@ == fitted(text@, widths@, total_width as nat),
{
    let limit: usize = total_width.saturating_sub(2) as usize;
    let mut width: usize = 0;
    let mut i: usize = 0;
    let mut count: usize = widths.len();
    proof {
        lemma_fit_bounds(widths@, 0, 0, limit as nat);
    }
    while i < widths.len()
        invariant_except_break
            count == widths.len(),
        invariant
            i <= widths.len(),
            width <= limit,
            limit == if total_width >= 2 { (total_width - 2) as nat } else { 0 },
            fit(widths@, i as nat, width as nat, limit as nat) == fit(widths@, 0, 0, limit as nat),
        ensures
            width <= limit,
            count <= widths.len(),
            fit(widths@, 0, 0, limit as nat) == (count as nat, width as nat),
        decreases widths.len() - i,
    {
        match widths[i] {
            Some(w) => {
                if w > limit - width {
                    count = i;
                    break;
                }
                width = width + w;
            },
            None => {},
        }
        i = i + 1;
    }
    let mut out: Vec<char> = Vec::new();
    let mut k: usize = 0;
    while k < count
        invariant
            k <= count <= text.len(),
            out@ == text@.take(k as int),
        decreases count - k,
    {
        out.push(text[k]);
        k = k + 1;
        assert(out@ =~= text@.take(k as int));
    }
    let padding: u16 = total_width.saturating_sub(width as u16);
    let ghost body = out@;
    let mut p: u16 = 0;
    while p < padding
        invariant
            p <= padding,
            out@ == body + spaces(p as nat),
        decreases padding - p,
    {
        out.push(' ');
        p = p + 1;
        assert(out@ =~= body + spaces(p as nat));
    }
    string_of_chars(&out)
}

impl ProcessCell {
    /// The column's width in terminal columns.
    pub fn width(&self) -> (r: u16)
        ensures
            r == cell_width(*self),
    {
        match self {
            ProcessCell::PID => 9,
            ProcessCell::PRG => 11,
            ProcessCell::USER => 6,
            ProcessCell::CMD => 200,
            ProcessCell::MEM => 7,
            ProcessCell::CPU => 6,
            ProcessCell::READ => 7,
            ProcessCell::WRITE => 7,
            ProcessCell::TIME => 20,
        }
    }

    /// `noodle` fitted into this column: cut to the column's width less
    /// two, then padded with spaces to the full width.
    pub fn keep_width(&self, noodle: &str) -> (r: String)
        ensures
            r@ == fitted(noodle@, noodle@.map_values(|c: char| char_width_of(c)), cell_width(*self) as nat),
    {
        let text = chars_of(noodle);
        let mut widths: Vec<Option<usize>> = Vec::new();
        let mut i: usize = 0;
        while i < text.len()
            invariant
                i <= text.len(),
                text@ == noodle@,
                widths@ == text@.take(i as int).map_values(|c: char| char_width_of(c)),
            decreases text.len() - i,
        {
            widths.push(char_width(text[i]));
            i = i + 1;
            assert(widths@ =~= text@.take(i as int).map_values(|c: char| char_width_of(c)));
        }
        assert(text@.take(i as int) =~= text@);
        fit_columns(&text, &widths, self.width())
    }

    /// The column's header: its name and `suffix`, fitted to the column.
    pub fn to_label(&self, suffix: char) -> (r: String)
        ensures
            r@ == fitted(
                cell_label(*self).push(suffix),
                cell_label(*self).push(suffix).map_values(|c: char| char_width_of(c)),
                cell_width(*self) as nat,
            ),
    {
        let label: &str = match self {
            ProcessCell::PID => "PID",
            ProcessCell::PRG => "NAME",
            ProcessCell::USER => "USER",
            ProcessCell::CMD => "CMD",
            ProcessCell::MEM => "MEM",
            ProcessCell::CPU => "CPU",
            ProcessCell::READ => "READ",
            ProcessCell::WRITE => "WRIT",
            ProcessCell::TIME => "TIME",
        };
        let mut text = chars_of(label);
        text.push(suffix);
        let mut widths: Vec<Option<usize>> = Vec::new();
        let mut i: usize = 0;
        while i < text.len()
            invariant
                i <= text.len(),
                text@ == cell_label(*self).push(suffix),
                widths@ == text@.take(i as int).map_values(|c: char| char_width_of(c)),
            decreases text.len() - i,
        {
            widths.push(char_width(text[i]));
            i = i + 1;
            assert(widths@ =~= text@.take(i as int).map_values(|c: char| char_width_of(c)));
        }
        assert(text@.take(i as int) =~= text@);
        fit_columns(&text, &widths, self.width())
    }
}

/// The sort order after the user picks column `c`: picking the sorted
/// column again flips the direction; another column sorts descending.
pub open spec fn toggled_sort(sort: Option<(ProcessCell, bool)>, c: ProcessCell) -> Option<(ProcessCell, bool)> {
    match sort {
        Some((cell, desc)) => Some((c, if cell == c { !desc } else { true })),
        None => Some((c, true)),
    }
}

/// A command line as procfs gives it, its arguments separated by NUL
/// characters, with spaces in their place; `None` when it is empty.
pub fn sanitize_cmdline(cmdline: &str) -> (r: Option<String>)
    ensures
        cmdline@.len() == 0 ==> r is None,
        cmdline@.len() > 0 ==> (r matches Some(s) && s@ == cmdline@.map_values(
            |c: char| if c == '\0' { ' ' } else { c },
        )),
{
    let v = chars_of(cmdline);
    if v.len() == 0 {
        return None;
    }
    let mut out: Vec<char> = Vec::new();
    let mut i: usize = 0;
    while i < v.len()
        invariant
            i <= v.len(),
            v@ == cmdline@,
            out@ == v@.take(i as int).map_values(|c: char| if c == '\0' { ' ' } else { c }),
        decreases v.len() - i,
    {
        out.push(if v[i] == '\0' { ' ' } else { v[i] });
        i = i + 1;
        assert(out@ =~= v@.take(i as int).map_values(|c: char| if c == '\0' { ' ' } else { c }));
    }
    assert(v@.take(i as int) =~= v@);
    Some(string_of_chars(&out))
}

/// Applies the user's pick of column `c` to the shared sort order.
pub fn try_change_sort(sort: &mut Option<(ProcessCell, bool)>, c: ProcessCell)
    ensures
        *final(sort) == toggled_sort(*old(sort), c),
{
    match *sort {
        Some((cell, desc)) => {
            *sort = Some((c, if cell == c { !desc } else { true }));
        },
        None => {
            *sort = Some((c, true));
        },
    }
}

/// The suffix of a column's header: an arrow on the sorted column.
pub open spec fn sort_suffix(sort: Option<(ProcessCell, bool)>, c: ProcessCell) -> char {
    match sort {
        Some((cell, desc)) => if cell == c {
            if desc {
                '↓'
            } else {
                '↑'
            }
        } else {
            ' '
        },
        None => ' ',
    }
}

/// The columns shown, in order.
#[derive(Debug)]
pub struct LineBuilder {
    labels: Vec<ProcessCell>,
}

impl LineBuilder {
    pub closed spec fn columns(&self) -> Seq<ProcessCell> {
        self.labels@
    }

    pub fn new() -> (r: Self)
        ensures
            r.columns() == seq![
                ProcessCell::PID,
                ProcessCell::USER,
                ProcessCell::CPU,
                ProcessCell::MEM,
                ProcessCell::READ,
                ProcessCell::WRITE,
                ProcessCell::CMD,
            ],
    {
        let header = vec![
            ProcessCell::PID,
            ProcessCell::USER,
            ProcessCell::CPU,
            ProcessCell::MEM,
            ProcessCell::READ,
            ProcessCell::WRITE,
            ProcessCell::CMD,
        ];
        LineBuilder { labels: header }
    }

    pub fn labels(&self) -> (r: &Vec<ProcessCell>)
        ensures
            r@ == self.columns(),
    {
        &self.labels
    }

    /// The header text of each column, the sorted one marked by an arrow.
    pub fn header_labels(&self, sort: Option<(ProcessCell, bool)>) -> (r: Vec<String>)
        ensures
            r@.len() == self.columns().len(),
            forall|i: int|
                0 <= i < r@.len() ==> {
                    let c = #[trigger] self.columns()[i];
                    let t = cell_label(c).push(sort_suffix(sort, c));
                    r@[i]@ == fitted(t, t.map_values(|ch: char| char_width_of(ch)), cell_width(c) as nat)
                },
    {
        let mut r: Vec<String> = Vec::new();
        let mut i: usize = 0;
        while i < self.labels.len()
            invariant
                i <= self.labels.len(),
                r@.len() == i,
                forall|k: int|
                    0 <= k < i ==> {
                        let c = #[trigger] self.labels@[k];
                        let t = cell_label(c).push(sort_suffix(sort, c));
                        r@[k]@ == fitted(t, t.map_values(|ch: char| char_width_of(ch)), cell_width(c) as nat)
                    },
            decreases self.labels.len() - i,
        {
            let ele = self.labels[i];
            let suffix = match sort {
                Some((cell, desc)) => if cell == ele {
                    if desc {
                        '↓'
                    } else {
                        '↑'
                    }
                } else {
                    ' '
                },
                None => ' ',
            };
            r.push(ele.to_label(suffix));
            i = i + 1;
        }
        r
    }
}

} // verus!
