use vstd::prelude::*;
use crate::app::Mode;
use crate::tabs::about::{row_down, row_up, step_down, step_up};

verus! {

/// The tab that shows the modules' settings, one module at a time.
#[derive(Debug, Clone, Copy, PartialEq, Eq)]
pub struct ModulesConfigTab {
    pub row_index: usize,
    /// The module that is shown.
    pub tab: ModuleTabs,
}

/// The modules whose settings are shown.
#[derive(Debug, Clone, Copy, PartialEq, Eq, Structural)]
pub enum ModuleTabs {
    Mqtt,
    Serial,
    ExternalNotification,
    StoreForward,
    RangeTest,
    Telemetry,
    CannedMessage,
    Audio,
    RemoteHardware,
    NeighborInfo,
    AmbientLighting,
    DetectionSensor,
    Paxcounter,
}

impl ModuleTabs {
    /// The place of the tab in the row of tabs, counted from 0.
    pub open spec fn index(self) -> nat {
        match self {
            ModuleTabs::Mqtt => 0,
            ModuleTabs::Serial => 1,
            ModuleTabs::ExternalNotification => 2,
            ModuleTabs::StoreForward => 3,
            ModuleTabs::RangeTest => 4,
            ModuleTabs::Telemetry => 5,
            ModuleTabs::CannedMessage => 6,
            ModuleTabs::Audio => 7,
            ModuleTabs::RemoteHardware => 8,
            ModuleTabs::NeighborInfo => 9,
            ModuleTabs::AmbientLighting => 10,
            ModuleTabs::DetectionSensor => 11,
            ModuleTabs::Paxcounter => 12,
        }
    }

    /// The tab to the right, or the tab itself where it is the last.
    pub open spec fn spec_next(self) -> Self {
        match self {
            ModuleTabs::Mqtt => ModuleTabs::Serial,
            ModuleTabs::Serial => ModuleTabs::ExternalNotification,
            ModuleTabs::ExternalNotification => ModuleTabs::StoreForward,
            ModuleTabs::StoreForward => ModuleTabs::RangeTest,
            ModuleTabs::RangeTest => ModuleTabs::Telemetry,
            ModuleTabs::Telemetry => ModuleTabs::CannedMessage,
            ModuleTabs::CannedMessage => ModuleTabs::Audio,
            ModuleTabs::Audio => ModuleTabs::RemoteHardware,
            ModuleTabs::RemoteHardware => ModuleTabs::NeighborInfo,
            ModuleTabs::NeighborInfo => ModuleTabs::AmbientLighting,
            ModuleTabs::AmbientLighting => ModuleTabs::DetectionSensor,
            ModuleTabs::DetectionSensor => ModuleTabs::Paxcounter,
            ModuleTabs::Paxcounter => ModuleTabs::Paxcounter,
        }
    }

    /// The tab to the left, or the tab itself where it is the first.
    pub open spec fn spec_prev(self) -> Self {
        match self {
            ModuleTabs::Mqtt => ModuleTabs::Mqtt,
            ModuleTabs::Serial => ModuleTabs::Mqtt,
            ModuleTabs::ExternalNotification => ModuleTabs::Serial,
            ModuleTabs::StoreForward => ModuleTabs::ExternalNotification,
            ModuleTabs::RangeTest => ModuleTabs::StoreForward,
            ModuleTabs::Telemetry => ModuleTabs::RangeTest,
            ModuleTabs::CannedMessage => ModuleTabs::Telemetry,
            ModuleTabs::Audio => ModuleTabs::CannedMessage,
            ModuleTabs::RemoteHardware => ModuleTabs::Audio,
            ModuleTabs::NeighborInfo => ModuleTabs::RemoteHardware,
            ModuleTabs::AmbientLighting => ModuleTabs::NeighborInfo,
            ModuleTabs::DetectionSensor => ModuleTabs::AmbientLighting,
            ModuleTabs::Paxcounter => ModuleTabs::DetectionSensor,
        }
    }

    /// The name of the tab, with a space on either side.
    pub open spec fn spec_title(self) -> Seq<char> {
        match self {
            ModuleTabs::Mqtt => " Mqtt "@,
            ModuleTabs::Serial => " Serial "@,
            ModuleTabs::ExternalNotification => " ExternalNotification "@,
            ModuleTabs::StoreForward => " StoreForward "@,
            ModuleTabs::RangeTest => " RangeTest "@,
            ModuleTabs::Telemetry => " Telemetry "@,
            ModuleTabs::CannedMessage => " CannedMessage "@,
            ModuleTabs::Audio => " Audio "@,
            ModuleTabs::RemoteHardware => " RemoteHardware "@,
            ModuleTabs::NeighborInfo => " NeighborInfo "@,
            ModuleTabs::AmbientLighting => " AmbientLighting "@,
            ModuleTabs::DetectionSensor => " DetectionSensor "@,
            ModuleTabs::Paxcounter => " Paxcounter "@,
        }
    }

    #[verifier::when_used_as_spec(spec_next)]
    pub fn next(self) -> (tab: Self)
        ensures
            tab == self.spec_next(),
    {
        match self {
            ModuleTabs::Mqtt => ModuleTabs::Serial,
            ModuleTabs::Serial => ModuleTabs::ExternalNotification,
            ModuleTabs::ExternalNotification => ModuleTabs::StoreForward,
            ModuleTabs::StoreForward => ModuleTabs::RangeTest,
            ModuleTabs::RangeTest => ModuleTabs::Telemetry,
            ModuleTabs::Telemetry => ModuleTabs::CannedMessage,
            ModuleTabs::CannedMessage => ModuleTabs::Audio,
            ModuleTabs::Audio => ModuleTabs::RemoteHardware,
            ModuleTabs::RemoteHardware => ModuleTabs::NeighborInfo,
            ModuleTabs::NeighborInfo => ModuleTabs::AmbientLighting,
            ModuleTabs::AmbientLighting => ModuleTabs::DetectionSensor,
            ModuleTabs::DetectionSensor => ModuleTabs::Paxcounter,
            ModuleTabs::Paxcounter => ModuleTabs::Paxcounter,
        }
    }

    #[verifier::when_used_as_spec(spec_prev)]
    pub fn prev(self) -> (tab: Self)
        ensures
            tab == self.spec_prev(),
    {
        match self {
            ModuleTabs::Mqtt => ModuleTabs::Mqtt,
            ModuleTabs::Serial => ModuleTabs::Mqtt,
            ModuleTabs::ExternalNotification => ModuleTabs::Serial,
            ModuleTabs::StoreForward => ModuleTabs::ExternalNotification,
            ModuleTabs::RangeTest => ModuleTabs::StoreForward,
            ModuleTabs::Telemetry => ModuleTabs::RangeTest,
            ModuleTabs::CannedMessage => ModuleTabs::Telemetry,
            ModuleTabs::Audio => ModuleTabs::CannedMessage,
            ModuleTabs::RemoteHardware => ModuleTabs::Audio,
            ModuleTabs::NeighborInfo => ModuleTabs::RemoteHardware,
            ModuleTabs::AmbientLighting => ModuleTabs::NeighborInfo,
            ModuleTabs::DetectionSensor => ModuleTabs::AmbientLighting,
            ModuleTabs::Paxcounter => ModuleTabs::DetectionSensor,
        }
    }

    /// The name of the tab, with a space on either side.
    pub fn title(self) -> (title: String)
        ensures
            title@ == self.spec_title(),
    {
        match self {
            ModuleTabs::Mqtt => " Mqtt ".to_owned(),
            ModuleTabs::Serial => " Serial ".to_owned(),
            ModuleTabs::ExternalNotification => " ExternalNotification ".to_owned(),
            ModuleTabs::StoreForward => " StoreForward ".to_owned(),
            ModuleTabs::RangeTest => " RangeTest ".to_owned(),
            ModuleTabs::Telemetry => " Telemetry ".to_owned(),
            ModuleTabs::CannedMessage => " CannedMessage ".to_owned(),
            ModuleTabs::Audio => " Audio ".to_owned(),
            ModuleTabs::RemoteHardware => " RemoteHardware ".to_owned(),
            ModuleTabs::NeighborInfo => " NeighborInfo ".to_owned(),
            ModuleTabs::AmbientLighting => " AmbientLighting ".to_owned(),
            ModuleTabs::DetectionSensor => " DetectionSensor ".to_owned(),
            ModuleTabs::Paxcounter => " Paxcounter ".to_owned(),
        }
    }
}

/// Lemma: moving right goes up by one place and stops at the last tab; moving left goes
/// down by one place and stops at the first.
pub proof fn lemma_moduletabs_steps(tab: ModuleTabs)
    ensures
        tab.spec_next().index() == if tab.index() == 12 {
            tab.index()
        } else {
            tab.index() + 1
        },
        tab.spec_prev().index() == if tab.index() == 0 {
            0
        } else {
            (tab.index() - 1) as nat
        },
{
}

impl ModulesConfigTab {
    /// A tab on its first row, showing the first block.
    pub fn new() -> (tab: ModulesConfigTab)
        ensures
            tab.row_index == 0,
            tab.tab == ModuleTabs::Mqtt,
    {
        ModulesConfigTab { row_index: 0, tab: ModuleTabs::Mqtt }
    }

    /// Leaving this tab leaves the dashboard.
    pub fn escape(&mut self) -> (mode: Mode)
        ensures
            mode == Mode::Exiting,
            *final(self) == *old(self),
    {
        Mode::Exiting
    }

    /// The enter key does nothing on this tab.
    pub fn enter_key(&mut self)
        ensures
            *final(self) == *old(self),
    {
    }

    /// Moves up by a row, stopping at the first.
    pub fn prev_row(&mut self)
        ensures
            *final(self) == (ModulesConfigTab { row_index: row_up(old(self).row_index), ..*old(self) }),
    {
        self.row_index = step_up(self.row_index);
    }

    /// Moves down by a row.
    pub fn next_row(&mut self)
        ensures
            *final(self) == (ModulesConfigTab { row_index: row_down(old(self).row_index), ..*old(self) }),
    {
        self.row_index = step_down(self.row_index);
    }

    /// The function keys do nothing on this tab.
    pub fn function_key(&mut self, _num: u8)
        ensures
            *final(self) == *old(self),
    {
    }

    /// Shows the block to the left.
    pub fn left(&mut self)
        ensures
            *final(self) == (ModulesConfigTab { tab: old(self).tab.spec_prev(), ..*old(self) }),
    {
        self.tab = self.tab.prev();
    }

    /// Shows the block to the right.
    pub fn right(&mut self)
        ensures
            *final(self) == (ModulesConfigTab { tab: old(self).tab.spec_next(), ..*old(self) }),
    {
        self.tab = self.tab.next();
    }
}

} // verus!
