use vstd::prelude::*;
use crate::app::Mode;
use crate::tabs::about::{row_down, row_up, step_down, step_up};

verus! {

/// The tab that shows the radio's settings, one block at a time.
#[derive(Debug, Clone, Copy, PartialEq, Eq)]
pub struct ConfigTab {
    pub row_index: usize,
    /// The block that is shown.
    pub tab: InnerConfigTabs,
}

/// The blocks of the radio's settings.
#[derive(Debug, Clone, Copy, PartialEq, Eq, Structural)]
pub enum InnerConfigTabs {
    Device,
    Bluetooth,
    Display,
    LoRa,
    Network,
    Position,
    Power,
}

impl InnerConfigTabs {
    /// The place of the tab in the row of tabs, counted from 0.
    pub open spec fn index(self) -> nat {
        match self {
            InnerConfigTabs::Device => 0,
            InnerConfigTabs::Bluetooth => 1,
            InnerConfigTabs::Display => 2,
            InnerConfigTabs::LoRa => 3,
            InnerConfigTabs::Network => 4,
            InnerConfigTabs::Position => 5,
            InnerConfigTabs::Power => 6,
        }
    }

    /// The tab to the right, or the tab itself where it is the last.
    pub open spec fn spec_next(self) -> Self {
        match self {
            InnerConfigTabs::Device => InnerConfigTabs::Bluetooth,
            InnerConfigTabs::Bluetooth => InnerConfigTabs::Display,
            InnerConfigTabs::Display => InnerConfigTabs::LoRa,
            InnerConfigTabs::LoRa => InnerConfigTabs::Network,
            InnerConfigTabs::Network => InnerConfigTabs::Position,
            InnerConfigTabs::Position => InnerConfigTabs::Power,
            InnerConfigTabs::Power => InnerConfigTabs::Power,
        }
    }

    /// The tab to the left, or the tab itself where it is the first.
    pub open spec fn spec_prev(self) -> Self {
        match self {
            InnerConfigTabs::Device => InnerConfigTabs::Device,
            InnerConfigTabs::Bluetooth => InnerConfigTabs::Device,
            InnerConfigTabs::Display => InnerConfigTabs::Bluetooth,
            InnerConfigTabs::LoRa => InnerConfigTabs::Display,
            InnerConfigTabs::Network => InnerConfigTabs::LoRa,
            InnerConfigTabs::Position => InnerConfigTabs::Network,
            InnerConfigTabs::Power => InnerConfigTabs::Position,
        }
    }

    /// The name of the tab, with a space on either side.
    pub open spec fn spec_title(self) -> Seq<char> {
        match self {
            InnerConfigTabs::Device => " Device "@,
            InnerConfigTabs::Bluetooth => " Bluetooth "@,
            InnerConfigTabs::Display => " Display "@,
            InnerConfigTabs::LoRa => " LoRa "@,
            InnerConfigTabs::Network => " Network "@,
            InnerConfigTabs::Position => " Position "@,
            InnerConfigTabs::Power => " Power "@,
        }
    }

    #[verifier::when_used_as_spec(spec_next)]
    pub fn next(self) -> (tab: Self)
        ensures
            tab == self.spec_next(),
    {
        match self {
            InnerConfigTabs::Device => InnerConfigTabs::Bluetooth,
            InnerConfigTabs::Bluetooth => InnerConfigTabs::Display,
            InnerConfigTabs::Display => InnerConfigTabs::LoRa,
            InnerConfigTabs::LoRa => InnerConfigTabs::Network,
            InnerConfigTabs::Network => InnerConfigTabs::Position,
            InnerConfigTabs::Position => InnerConfigTabs::Power,
            InnerConfigTabs::Power => InnerConfigTabs::Power,
        }
    }

    #[verifier::when_used_as_spec(spec_prev)]
    pub fn prev(self) -> (tab: Self)
        ensures
            tab == self.spec_prev(),
    {
        match self {
            InnerConfigTabs::Device => InnerConfigTabs::Device,
            InnerConfigTabs::Bluetooth => InnerConfigTabs::Device,
            InnerConfigTabs::Display => InnerConfigTabs::Bluetooth,
            InnerConfigTabs::LoRa => InnerConfigTabs::Display,
            InnerConfigTabs::Network => InnerConfigTabs::LoRa,
            InnerConfigTabs::Position => InnerConfigTabs::Network,
            InnerConfigTabs::Power => InnerConfigTabs::Position,
        }
    }

    /// The name of the tab, with a space on either side.
    pub fn title(self) -> (title: String)
        ensures
            title@ == self.spec_title(),
    {
        match self {
            InnerConfigTabs::Device => " Device ".to_owned(),
            InnerConfigTabs::Bluetooth => " Bluetooth ".to_owned(),
            InnerConfigTabs::Display => " Display ".to_owned(),
            InnerConfigTabs::LoRa => " LoRa ".to_owned(),
            InnerConfigTabs::Network => " Network ".to_owned(),
            InnerConfigTabs::Position => " Position ".to_owned(),
            InnerConfigTabs::Power => " Power ".to_owned(),
        }
    }
}

/// Lemma: moving right goes up by one place and stops at the last tab; moving left goes
/// down by one place and stops at the first.
pub proof fn lemma_innerconfigtabs_steps(tab: InnerConfigTabs)
    ensures
        tab.spec_next().index() == if tab.index() == 6 {
            tab.index()
        } else {
            tab.index() + 1
        },
        tab.spec_prev().index() == if tab.index() == 0 {
            0
        } else {
            (tab.index() - 1) as nat
        },
{
}

impl ConfigTab {
    /// A tab on its first row, showing the first block.
    pub fn new() -> (tab: ConfigTab)
        ensures
            tab.row_index == 0,
            tab.tab == InnerConfigTabs::Device,
    {
        ConfigTab { row_index: 0, tab: InnerConfigTabs::Device }
    }

    /// Leaving this tab leaves the dashboard.
    pub fn escape(&mut self) -> (mode: Mode)
        ensures
            mode == Mode::Exiting,
            *final(self) == *old(self),
    {
        Mode::Exiting
    }

    /// The enter key does nothing on this tab.
    pub fn enter_key(&mut self)
        ensures
            *final(self) == *old(self),
    {
    }

    /// Moves up by a row, stopping at the first.
    pub fn prev_row(&mut self)
        ensures
            *final(self) == (ConfigTab { row_index: row_up(old(self).row_index), ..*old(self) }),
    {
        self.row_index = step_up(self.row_index);
    }

    /// Moves down by a row.
    pub fn next_row(&mut self)
        ensures
            *final(self) == (ConfigTab { row_index: row_down(old(self).row_index), ..*old(self) }),
    {
        self.row_index = step_down(self.row_index);
    }

    /// The function keys do nothing on this tab.
    pub fn function_key(&mut self, _num: u8)
        ensures
            *final(self) == *old(self),
    {
    }

    /// Shows the block to the left.
    pub fn left(&mut self)
        ensures
            *final(self) == (ConfigTab { tab: old(self).tab.spec_prev(), ..*old(self) }),
    {
        self.tab = self.tab.prev();
    }

    /// Shows the block to the right.
    pub fn right(&mut self)
        ensures
            *final(self) == (ConfigTab { tab: old(self).tab.spec_next(), ..*old(self) }),
    {
        self.tab = self.tab.next();
    }
}

} // verus!
