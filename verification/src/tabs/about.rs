use vstd::prelude::*;
use crate::app::Mode;

verus! {

/// The tab that says what the dashboard is.
#[derive(Debug, Clone, Copy, PartialEq, Eq)]
pub struct AboutTab {
    pub row_index: usize,
}

/// The row above `row`, or `row` itself where it is the first.
pub open spec fn row_up(row: usize) -> usize {
    if row == 0 {
        0
    } else {
        (row - 1) as usize
    }
}

/// The row below `row`, or `row` itself where no higher number can be held.
pub open spec fn row_down(row: usize) -> usize {
    if row == usize::MAX {
        row
    } else {
        (row + 1) as usize
    }
}

/// Computes `row_up`.
pub fn step_up(row: usize) -> (r: usize)
    ensures
        r == row_up(row),
{
    if row == 0 {
        0
    } else {
        row - 1
    }
}

/// Computes `row_down`.
pub fn step_down(row: usize) -> (r: usize)
    ensures
        r == row_down(row),
{
    if row == usize::MAX {
        row
    } else {
        row + 1
    }
}

impl AboutTab {
    /// A tab on its first row.
    pub fn new() -> (tab: AboutTab)
        ensures
            tab.row_index == 0,
    {
        AboutTab { row_index: 0 }
    }

    /// Leaving this tab leaves the dashboard.
    pub fn escape(&mut self) -> (mode: Mode)
        ensures
            mode == Mode::Exiting,
            *final(self) == *old(self),
    {
        Mode::Exiting
    }

    /// The enter key does nothing on this tab.
    pub fn enter_key(&mut self)
        ensures
            *final(self) == *old(self),
    {
    }

    /// Moves up by a row, stopping at the first.
    pub fn prev_row(&mut self)
        ensures
            final(self).row_index == row_up(old(self).row_index),
    {
        self.row_index = step_up(self.row_index);
    }

    /// Moves down by a row.
    pub fn next_row(&mut self)
        ensures
            final(self).row_index == row_down(old(self).row_index),
    {
        self.row_index = step_down(self.row_index);
    }
}

} // verus!
