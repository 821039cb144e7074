use vstd::prelude::*;
use crate::app::Mode;
use crate::tabs::about::{row_down, row_up, step_down, step_up};

verus! {

/// The tab on which the settings will be edited.
#[derive(Debug, Clone, Copy, PartialEq, Eq)]
pub struct ConfigTab {
    pub row_index: usize,
}

impl ConfigTab {
    /// A tab on its first row.
    pub fn new() -> (tab: ConfigTab)
        ensures
            tab.row_index == 0,
    {
        ConfigTab { row_index: 0 }
    }

    /// Leaving this tab leaves the dashboard.
    pub fn escape(&mut self) -> (mode: Mode)
        ensures
            mode == Mode::Exiting,
            *final(self) == *old(self),
    {
        Mode::Exiting
    }

    /// The enter key does nothing on this tab.
    pub fn enter_key(&mut self)
        ensures
            *final(self) == *old(self),
    {
    }

    /// Moves up by a row, stopping at the first.
    pub fn prev_row(&mut self)
        ensures
            final(self).row_index == row_up(old(self).row_index),
    {
        self.row_index = step_up(self.row_index);
    }

    /// Moves down by a row.
    pub fn next_row(&mut self)
        ensures
            final(self).row_index == row_down(old(self).row_index),
    {
        self.row_index = step_down(self.row_index);
    }
}

} // verus!
