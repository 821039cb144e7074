//! The state of the dashboard as a whole: which tab is shown, what the operator is typing,
//! where the radio is reached, and how keys and frames change all that.

use vstd::prelude::*;
use crate::codec::text_of;
use crate::config::{
    merge_block, store_view, ConfigurationView, DeviceConfiguration, StoreUpdate,
};
use crate::frame::PacketDestination;
use crate::ipc::IPCMessage;
use crate::node::Reception;
use crate::packet_handler::{
    interpret, interpretation, Notice, PacketResponse, ResponseView,
};
use crate::tabs::about::{row_down, row_up, AboutTab};
use crate::tabs::channels::ChannelsTab;
use crate::tabs::device_config::ConfigTab;
use crate::tabs::messages::{appended, MessageEnvelope, MessagesTab};
use crate::tabs::modules_config::ModulesConfigTab;
use crate::tabs::nodes::{registry_after, NodesTab};
use crate::nav::{page_after, page_before, row_after, row_before};

verus! {

/// Whether the dashboard goes on or is about to leave.
#[derive(Debug, Clone, Copy, PartialEq, Eq, Structural)]
pub enum Mode {
    Running,
    Exiting,
}

/// Whether keys move the selection or are typed into the message.
#[derive(Debug, Clone, Copy, PartialEq, Eq, Structural)]
pub enum InputMode {
    Normal,
    Editing,
}

/// What the operator chose at start.
#[derive(Debug, Clone, PartialEq, Eq)]
pub struct Preferences {
    pub initialized: String,
    pub show_mqtt: bool,
}

/// Where the radio is reached.
#[derive(Debug, Clone, PartialEq, Eq)]
pub enum Connection {
    TCP(String, u16),
    Serial(String),
    /// No way to reach the radio was chosen.
    Unset,
}

/// A key that the operator pressed.
#[derive(Debug, Clone, Copy, PartialEq, Eq)]
pub enum Key {
    Char(char),
    Esc,
    Left,
    Right,
    Up,
    Down,
    PageUp,
    PageDown,
    Enter,
    BackTab,
    Tab,
    F(u8),
    Backspace,
    Other,
}

/// The tabs of the dashboard, from left to right.
#[derive(Debug, Clone, Copy, PartialEq, Eq, Structural)]
pub enum MenuTabs {
    Messages,
    Nodes,
    Channels,
    DeviceConfig,
    ModulesConfig,
    About,
}

impl MenuTabs {
    /// The place of the tab in the row of tabs, counted from 0.
    pub open spec fn index(self) -> nat {
        match self {
            MenuTabs::Messages => 0,
            MenuTabs::Nodes => 1,
            MenuTabs::Channels => 2,
            MenuTabs::DeviceConfig => 3,
            MenuTabs::ModulesConfig => 4,
            MenuTabs::About => 5,
        }
    }

    /// The tab to the right, or the tab itself where it is the last.
    pub open spec fn spec_next(self) -> Self {
        match self {
            MenuTabs::Messages => MenuTabs::Nodes,
            MenuTabs::Nodes => MenuTabs::Channels,
            MenuTabs::Channels => MenuTabs::DeviceConfig,
            MenuTabs::DeviceConfig => MenuTabs::ModulesConfig,
            MenuTabs::ModulesConfig => MenuTabs::About,
            MenuTabs::About => MenuTabs::About,
        }
    }

    /// The tab to the left, or the tab itself where it is the first.
    pub open spec fn spec_prev(self) -> Self {
        match self {
            MenuTabs::Messages => MenuTabs::Messages,
            MenuTabs::Nodes => MenuTabs::Messages,
            MenuTabs::Channels => MenuTabs::Nodes,
            MenuTabs::DeviceConfig => MenuTabs::Channels,
            MenuTabs::ModulesConfig => MenuTabs::DeviceConfig,
            MenuTabs::About => MenuTabs::ModulesConfig,
        }
    }

    /// The name of the tab, with a space on either side.
    pub open spec fn spec_title(self) -> Seq<char> {
        match self {
            MenuTabs::Messages => " Messages "@,
            MenuTabs::Nodes => " Nodes "@,
            MenuTabs::Channels => " Channels "@,
            MenuTabs::DeviceConfig => " DeviceConfig "@,
            MenuTabs::ModulesConfig => " ModulesConfig "@,
            MenuTabs::About => " About "@,
        }
    }

    #[verifier::when_used_as_spec(spec_next)]
    pub fn next(self) -> (tab: Self)
        ensures
            tab == self.spec_next(),
    {
        match self {
            MenuTabs::Messages => MenuTabs::Nodes,
            MenuTabs::Nodes => MenuTabs::Channels,
            MenuTabs::Channels => MenuTabs::DeviceConfig,
            MenuTabs::DeviceConfig => MenuTabs::ModulesConfig,
            MenuTabs::ModulesConfig => MenuTabs::About,
            MenuTabs::About => MenuTabs::About,
        }
    }

    #[verifier::when_used_as_spec(spec_prev)]
    pub fn prev(self) -> (tab: Self)
        ensures
            tab == self.spec_prev(),
    {
        match self {
            MenuTabs::Messages => MenuTabs::Messages,
            MenuTabs::Nodes => MenuTabs::Messages,
            MenuTabs::Channels => MenuTabs::Nodes,
            MenuTabs::DeviceConfig => MenuTabs::Channels,
            MenuTabs::ModulesConfig => MenuTabs::DeviceConfig,
            MenuTabs::About => MenuTabs::ModulesConfig,
        }
    }

    /// The name of the tab, with a space on either side.
    pub fn title(self) -> (title: String)
        ensures
            title@ == self.spec_title(),
    {
        match self {
            MenuTabs::Messages => " Messages ".to_owned(),
            MenuTabs::Nodes => " Nodes ".to_owned(),
            MenuTabs::Channels => " Channels ".to_owned(),
            MenuTabs::DeviceConfig => " DeviceConfig ".to_owned(),
            MenuTabs::ModulesConfig => " ModulesConfig ".to_owned(),
            MenuTabs::About => " About ".to_owned(),
        }
    }
}

/// Lemma: moving right goes up by one place and stops at the last tab; moving left goes
/// down by one place and stops at the first.
pub proof fn lemma_menutabs_steps(tab: MenuTabs)
    ensures
        tab.spec_next().index() == if tab.index() == 5 {
            tab.index()
        } else {
            tab.index() + 1
        },
        tab.spec_prev().index() == if tab.index() == 0 {
            0
        } else {
            (tab.index() - 1) as nat
        },
{
}

/// The parts that the state of the dashboard is made of.
pub enum Part {
    Mode,
    Tab,
    NodesTab,
    ChannelsTab,
    DeviceConfigTab,
    ModulesConfigTab,
    MessagesTab,
    AboutTab,
    InputMode,
    Cursor,
    Input,
    DeviceConfig,
}

/// The dashboard: its tabs, the message being typed, the target of the connection, and
/// the configuration store.
#[derive(Debug)]
pub struct App {
    pub mode: Mode,
    pub tab: MenuTabs,
    pub nodes_tab: NodesTab,
    pub channels_tab: ChannelsTab,
    pub device_config_tab: ConfigTab,
    pub modules_config_tab: ModulesConfigTab,
    pub messages_tab: MessagesTab,
    pub about_tab: AboutTab,
    pub input_mode: InputMode,
    /// Where the next character goes, counted in characters from the start of the input.
    pub cursor_position: usize,
    /// The message being typed.
    pub input: Vec<char>,
    pub connection: Connection,
    pub user_prefs: Preferences,
    /// The settings of the radio, once the first of them has arrived.
    pub device_config: Option<DeviceConfiguration>,
}

/// The lesser of a position and a length.
pub open spec fn clamped(position: usize, len: nat) -> usize {
    if position <= len {
        position
    } else {
        len as usize
    }
}

/// The input with `c` put in at the cursor, or at the end where the cursor is beyond it.
pub open spec fn with_char(input: Seq<char>, cursor: usize, c: char) -> Seq<char> {
    input.insert(clamped(cursor, input.len()) as int, c)
}

/// The input without the character before the cursor. With the cursor at the start, or
/// more than one place beyond the end, nothing is before it.
pub open spec fn without_char_before(input: Seq<char>, cursor: usize) -> Seq<char> {
    if 0 < cursor <= input.len() {
        input.remove(cursor - 1)
    } else {
        input
    }
}

/// The message that goes out for a text typed by the operator: to everyone, on the
/// primary channel.
pub open spec fn is_outgoing(envelope: MessageEnvelope, text: Seq<char>) -> bool {
    &&& envelope.timestamp == 0
    &&& envelope.source is None
    &&& envelope.destination == PacketDestination::Broadcast
    &&& envelope.channel == 0
    &&& envelope.message@ == text
    &&& envelope.rx_rssi == 0
    &&& envelope.rx_snr_bits == 0
}

impl App {
    /// Whether `after` differs from this state in the named parts at most. The target of
    /// the connection and the preferences never change.
    pub open spec fn same_but(self, after: App, parts: Set<Part>) -> bool {
        &&& parts.contains(Part::Mode) || after.mode == self.mode
        &&& parts.contains(Part::Tab) || after.tab == self.tab
        &&& parts.contains(Part::NodesTab) || after.nodes_tab == self.nodes_tab
        &&& parts.contains(Part::ChannelsTab) || after.channels_tab == self.channels_tab
        &&& parts.contains(Part::DeviceConfigTab) || after.device_config_tab
            == self.device_config_tab
        &&& parts.contains(Part::ModulesConfigTab) || after.modules_config_tab
            == self.modules_config_tab
        &&& parts.contains(Part::MessagesTab) || after.messages_tab == self.messages_tab
        &&& parts.contains(Part::AboutTab) || after.about_tab == self.about_tab
        &&& parts.contains(Part::InputMode) || after.input_mode == self.input_mode
        &&& parts.contains(Part::Cursor) || after.cursor_position == self.cursor_position
        &&& parts.contains(Part::Input) || after.input == self.input
        &&& parts.contains(Part::DeviceConfig) || after.device_config == self.device_config
        &&& after.connection == self.connection
        &&& after.user_prefs == self.user_prefs
    }

    /// A dashboard that runs, shows the messages, holds nothing and has no target.
    pub fn new() -> (app: App)
        ensures
            app.mode == Mode::Running,
            app.tab == MenuTabs::Messages,
            app.nodes_tab.registry() == Map::<u32, crate::node::NodeView>::empty(),
            app.messages_tab.log() == Seq::<MessageEnvelope>::empty(),
            app.input_mode == InputMode::Normal,
            app.cursor_position == 0,
            app.input@.len() == 0,
            app.connection is Unset,
            app.device_config is None,
    {
        App {
            mode: Mode::Running,
            tab: MenuTabs::Messages,
            nodes_tab: NodesTab::new(),
            channels_tab: ChannelsTab::new(),
            device_config_tab: ConfigTab::new(),
            modules_config_tab: ModulesConfigTab::new(),
            messages_tab: MessagesTab::new(),
            about_tab: AboutTab::new(),
            input_mode: InputMode::Normal,
            cursor_position: 0,
            input: Vec::new(),
            connection: Connection::Unset,
            user_prefs: Preferences { initialized: String::new(), show_mqtt: false },
            device_config: None,
        }
    }

    /// Whether the dashboard goes on.
    pub fn is_running(&self) -> (running: bool)
        ensures
            running == (self.mode != Mode::Exiting),
    {
        match self.mode {
            Mode::Exiting => false,
            Mode::Running => true,
        }
    }

    /// Whether `after` is this state with the tab to the left shown.
    pub open spec fn after_prev_tab(self, after: App) -> bool {
        self.same_but(after, set![Part::Tab]) && after.tab == self.tab.spec_prev()
    }

    /// Whether `after` is this state with the tab to the right shown.
    pub open spec fn after_next_tab(self, after: App) -> bool {
        self.same_but(after, set![Part::Tab]) && after.tab == self.tab.spec_next()
    }

    /// Shows the tab to the left.
    pub fn prev_tab(&mut self)
        ensures
            old(self).after_prev_tab(*final(self)),
    {
        self.tab = self.tab.prev();
    }

    /// Shows the tab to the right.
    pub fn next_tab(&mut self)
        ensures
            old(self).after_next_tab(*final(self)),
    {
        self.tab = self.tab.next();
    }

    /// Whether `after` is this state after the key that goes left: a settings tab shows
    /// the block to the left, and any other tab stays as it is.
    pub open spec fn after_left(self, after: App) -> bool {
        match self.tab {
            MenuTabs::DeviceConfig => self.same_but(after, set![Part::DeviceConfigTab])
                && after.device_config_tab == (ConfigTab {
                tab: self.device_config_tab.tab.spec_prev(),
                ..self.device_config_tab
            }),
            MenuTabs::ModulesConfig => self.same_but(after, set![Part::ModulesConfigTab])
                && after.modules_config_tab == (ModulesConfigTab {
                tab: self.modules_config_tab.tab.spec_prev(),
                ..self.modules_config_tab
            }),
            _ => self.same_but(after, Set::empty()),
        }
    }

    /// Whether `after` is this state after the key that goes right.
    pub open spec fn after_right(self, after: App) -> bool {
        match self.tab {
            MenuTabs::DeviceConfig => self.same_but(after, set![Part::DeviceConfigTab])
                && after.device_config_tab == (ConfigTab {
                tab: self.device_config_tab.tab.spec_next(),
                ..self.device_config_tab
            }),
            MenuTabs::ModulesConfig => self.same_but(after, set![Part::ModulesConfigTab])
                && after.modules_config_tab == (ModulesConfigTab {
                tab: self.modules_config_tab.tab.spec_next(),
                ..self.modules_config_tab
            }),
            _ => self.same_but(after, Set::empty()),
        }
    }

    /// Goes left within the tab that is shown.
    pub fn left(&mut self)
        ensures
            old(self).after_left(*final(self)),
    {
        match self.tab {
            MenuTabs::DeviceConfig => self.device_config_tab.left(),
            MenuTabs::ModulesConfig => self.modules_config_tab.left(),
            _ => {},
        }
    }

    /// Goes right within the tab that is shown.
    pub fn right(&mut self)
        ensures
            old(self).after_right(*final(self)),
    {
        match self.tab {
            MenuTabs::DeviceConfig => self.device_config_tab.right(),
            MenuTabs::ModulesConfig => self.modules_config_tab.right(),
            _ => {},
        }
    }

    /// Whether `after` is this state after the key that goes up: the tab that is shown
    /// moves up by a row.
    pub open spec fn after_prev(self, after: App) -> bool {
        match self.tab {
            MenuTabs::Nodes => self.same_but(after, set![Part::NodesTab])
                && self.nodes_tab.moved_to(
                after.nodes_tab,
                row_before(self.nodes_tab.selected, self.nodes_tab.table_contents@.len() as usize),
                true,
            ),
            MenuTabs::Messages => self.same_but(after, set![Part::MessagesTab])
                && after.messages_tab == (MessagesTab {
                selected: Some(
                    row_before(self.messages_tab.selected, self.messages_tab.log().len() as usize),
                ),
                ..self.messages_tab
            }),
            MenuTabs::Channels => self.same_but(after, set![Part::ChannelsTab])
                && after.channels_tab == (ChannelsTab {
                row_index: row_up(self.channels_tab.row_index),
                ..self.channels_tab
            }),
            MenuTabs::DeviceConfig => self.same_but(after, set![Part::DeviceConfigTab])
                && after.device_config_tab == (ConfigTab {
                row_index: row_up(self.device_config_tab.row_index),
                ..self.device_config_tab
            }),
            MenuTabs::ModulesConfig => self.same_but(after, set![Part::ModulesConfigTab])
                && after.modules_config_tab == (ModulesConfigTab {
                row_index: row_up(self.modules_config_tab.row_index),
                ..self.modules_config_tab
            }),
            MenuTabs::About => self.same_but(after, set![Part::AboutTab])
                && after.about_tab.row_index == row_up(self.about_tab.row_index),
        }
    }

    /// Whether `after` is this state after the key that goes down: the tab that is shown
    /// moves down by a row.
    pub open spec fn after_next(self, after: App) -> bool {
        match self.tab {
            MenuTabs::Nodes => self.same_but(after, set![Part::NodesTab])
                && self.nodes_tab.moved_to(
                after.nodes_tab,
                row_after(self.nodes_tab.selected, self.nodes_tab.table_contents@.len() as usize),
                true,
            ),
            MenuTabs::Messages => self.same_but(after, set![Part::MessagesTab])
                && after.messages_tab == (MessagesTab {
                selected: Some(
                    row_after(self.messages_tab.selected, self.messages_tab.log().len() as usize),
                ),
                ..self.messages_tab
            }),
            MenuTabs::Channels => self.same_but(after, set![Part::ChannelsTab])
                && after.channels_tab == (ChannelsTab {
                row_index: row_down(self.channels_tab.row_index),
                ..self.channels_tab
            }),
            MenuTabs::DeviceConfig => self.after_row_down(after),
            MenuTabs::ModulesConfig => self.after_row_down(after),
            MenuTabs::About => self.after_row_down(after),
        }
    }

    /// Whether `after` is this state with the settings tab or the about tab that is shown
    /// moved down by a row.
    pub open spec fn after_row_down(self, after: App) -> bool {
        match self.tab {
            MenuTabs::DeviceConfig => self.same_but(after, set![Part::DeviceConfigTab])
                && after.device_config_tab == (ConfigTab {
                row_index: row_down(self.device_config_tab.row_index),
                ..self.device_config_tab
            }),
            MenuTabs::ModulesConfig => self.same_but(after, set![Part::ModulesConfigTab])
                && after.modules_config_tab == (ModulesConfigTab {
                row_index: row_down(self.modules_config_tab.row_index),
                ..self.modules_config_tab
            }),
            MenuTabs::About => self.same_but(after, set![Part::AboutTab])
                && after.about_tab.row_index == row_down(self.about_tab.row_index),
            _ => self.same_but(after, Set::empty()),
        }
    }

    /// Whether `after` is this state after the key that goes up by a page: the lists of
    /// nodes and of messages move, and any other tab stays as it is.
    pub open spec fn after_prev_page(self, after: App) -> bool {
        match self.tab {
            MenuTabs::Nodes => self.same_but(after, set![Part::NodesTab])
                && self.nodes_tab.moved_to(
                after.nodes_tab,
                page_before(self.nodes_tab.selected, self.nodes_tab.page_size),
                false,
            ),
            MenuTabs::Messages => self.same_but(after, set![Part::MessagesTab])
                && after.messages_tab == (MessagesTab {
                selected: Some(page_before(self.messages_tab.selected, self.messages_tab.page_size)),
                ..self.messages_tab
            }),
            _ => self.same_but(after, Set::empty()),
        }
    }

    /// Whether `after` is this state after the key that goes down by a page: the lists of
    /// nodes and of messages move by a page, the settings and the about tab by a row.
    pub open spec fn after_next_page(self, after: App) -> bool {
        match self.tab {
            MenuTabs::Nodes => self.same_but(after, set![Part::NodesTab])
                && self.nodes_tab.moved_to(
                after.nodes_tab,
                page_after(
                    self.nodes_tab.selected,
                    self.nodes_tab.node_list@.len() as usize,
                    self.nodes_tab.page_size,
                ),
                false,
            ),
            MenuTabs::Messages => self.same_but(after, set![Part::MessagesTab])
                && after.messages_tab == (MessagesTab {
                selected: Some(
                    page_after(
                        self.messages_tab.selected,
                        self.messages_tab.log().len() as usize,
                        self.messages_tab.page_size,
                    ),
                ),
                ..self.messages_tab
            }),
            MenuTabs::Channels => self.same_but(after, Set::empty()),
            _ => self.after_row_down(after),
        }
    }

    /// Goes up by a row within the tab that is shown.
    pub fn prev(&mut self)
        ensures
            old(self).after_prev(*final(self)),
    {
        match self.tab {
            MenuTabs::Nodes => self.nodes_tab.prev_row(),
            MenuTabs::Messages => self.messages_tab.prev_row(),
            MenuTabs::Channels => self.channels_tab.prev_row(),
            MenuTabs::DeviceConfig => self.device_config_tab.prev_row(),
            MenuTabs::ModulesConfig => self.modules_config_tab.prev_row(),
            MenuTabs::About => self.about_tab.prev_row(),
        }
    }

    /// Goes up by a page within the tab that is shown.
    pub fn prev_page(&mut self)
        ensures
            old(self).after_prev_page(*final(self)),
    {
        match self.tab {
            MenuTabs::Nodes => self.nodes_tab.prev_page(),
            MenuTabs::Messages => self.messages_tab.prev_page(),
            _ => {},
        }
    }

    /// Goes down by a row within the tab that is shown.
    pub fn next(&mut self)
        ensures
            old(self).after_next(*final(self)),
    {
        match self.tab {
            MenuTabs::Nodes => self.nodes_tab.next_row(),
            MenuTabs::Messages => self.messages_tab.next_row(),
            MenuTabs::Channels => self.channels_tab.next_row(),
            MenuTabs::DeviceConfig => self.device_config_tab.next_row(),
            MenuTabs::ModulesConfig => self.modules_config_tab.next_row(),
            MenuTabs::About => self.about_tab.next_row(),
        }
    }

    /// Goes down by a page within the tab that is shown.
    pub fn next_page(&mut self)
        ensures
            old(self).after_next_page(*final(self)),
    {
        match self.tab {
            MenuTabs::Nodes => self.nodes_tab.next_page(),
            MenuTabs::Messages => self.messages_tab.next_page(),
            MenuTabs::DeviceConfig => self.device_config_tab.next_row(),
            MenuTabs::ModulesConfig => self.modules_config_tab.next_row(),
            MenuTabs::About => self.about_tab.next_row(),
            _ => {},
        }
    }

    /// Whether `after` is this state after the escape key: the list of nodes closes the
    /// details where they are open, and any other tab leaves the dashboard.
    pub open spec fn after_escape(self, after: App) -> bool {
        match self.tab {
            MenuTabs::Nodes => self.same_but(after, set![Part::Mode, Part::NodesTab])
                && after.mode == self.nodes_tab.mode_after_escape() && self.nodes_tab.escaped(
                after.nodes_tab,
            ),
            _ => self.same_but(after, set![Part::Mode]) && after.mode == Mode::Exiting,
        }
    }

    /// Leaves the details, or the dashboard.
    pub fn escape(&mut self)
        ensures
            old(self).after_escape(*final(self)),
    {
        self.mode = match self.tab {
            MenuTabs::Nodes => self.nodes_tab.escape(),
            MenuTabs::Messages => self.messages_tab.escape(),
            MenuTabs::Channels => self.channels_tab.escape(),
            MenuTabs::DeviceConfig => self.device_config_tab.escape(),
            MenuTabs::ModulesConfig => self.modules_config_tab.escape(),
            MenuTabs::About => self.about_tab.escape(),
        };
    }

    /// Hands a function key to the tab that is shown. No tab does anything with one.
    pub fn function_key(&mut self, num: u8)
        ensures
            old(self).same_but(*final(self), Set::empty()),
    {
        match self.tab {
            MenuTabs::Messages => self.messages_tab.function_key(num),
            MenuTabs::Channels => self.channels_tab.function_key(num),
            MenuTabs::DeviceConfig => self.device_config_tab.function_key(num),
            MenuTabs::ModulesConfig => self.modules_config_tab.function_key(num),
            _ => {},
        }
    }

    /// The position within the input that is nearest to `new_cursor_pos`.
    pub fn clamp_cursor(&self, new_cursor_pos: usize) -> (position: usize)
        ensures
            position == clamped(new_cursor_pos, self.input@.len()),
    {
        if new_cursor_pos <= self.input.len() {
            new_cursor_pos
        } else {
            self.input.len()
        }
    }

    /// Whether `after` is this state with the cursor one place to the left.
    pub open spec fn after_cursor_left(self, after: App) -> bool {
        self.same_but(after, set![Part::Cursor]) && after.cursor_position == clamped(
            row_up(self.cursor_position),
            self.input@.len(),
        )
    }

    /// Whether `after` is this state with the cursor one place to the right.
    pub open spec fn after_cursor_right(self, after: App) -> bool {
        self.same_but(after, set![Part::Cursor]) && after.cursor_position == clamped(
            row_down(self.cursor_position),
            self.input@.len(),
        )
    }

    /// Moves the cursor one place to the left, stopping at the start of the input.
    pub fn move_cursor_left(&mut self)
        ensures
            old(self).after_cursor_left(*final(self)),
    {
        let moved = crate::tabs::about::step_up(self.cursor_position);
        self.cursor_position = self.clamp_cursor(moved);
    }

    /// Moves the cursor one place to the right, stopping at the end of the input.
    pub fn move_cursor_right(&mut self)
        ensures
            old(self).after_cursor_right(*final(self)),
    {
        let moved = crate::tabs::about::step_down(self.cursor_position);
        self.cursor_position = self.clamp_cursor(moved);
    }

    /// Whether `after` is this state with `c` typed at the cursor.
    pub open spec fn after_char(self, after: App, c: char) -> bool {
        &&& self.same_but(after, set![Part::Cursor, Part::Input])
        &&& after.input@ == with_char(self.input@, self.cursor_position, c)
        &&& after.cursor_position == clamped(row_down(self.cursor_position), after.input@.len())
    }

    /// Puts a character in at the cursor and moves the cursor past it.
    pub fn enter_char(&mut self, new_char: char)
        ensures
            old(self).after_char(*final(self), new_char),
    {
        let at = self.clamp_cursor(self.cursor_position);
        self.input.insert(at, new_char);
        self.move_cursor_right();
    }

    /// Whether `after` is this state with the character before the cursor deleted.
    pub open spec fn after_delete(self, after: App) -> bool {
        if self.cursor_position == 0 {
            self.same_but(after, Set::empty())
        } else {
            &&& self.same_but(after, set![Part::Cursor, Part::Input])
            &&& after.input@ == without_char_before(self.input@, self.cursor_position)
            &&& after.cursor_position == clamped(
                row_up(self.cursor_position),
                after.input@.len(),
            )
        }
    }

    /// Deletes the character before the cursor and moves the cursor back.
    pub fn delete_char(&mut self)
        ensures
            old(self).after_delete(*final(self)),
    {
        if self.cursor_position != 0 {
            if self.cursor_position <= self.input.len() {
                self.input.remove(self.cursor_position - 1);
            }
            self.move_cursor_left();
        }
    }

    /// Whether `after` and `outgoing` are what the enter key makes of this state on the
    /// messages tab: it opens the input, or closes it and sends what was typed.
    pub open spec fn after_enter_messages(self, after: App, outgoing: Option<IPCMessage>) -> bool {
        match self.input_mode {
            InputMode::Normal => {
                &&& self.same_but(after, set![Part::InputMode])
                &&& after.input_mode == InputMode::Editing
                &&& outgoing is None
            },
            InputMode::Editing => {
                &&& self.same_but(after, set![Part::InputMode, Part::Input])
                &&& after.input_mode == InputMode::Normal
                &&& after.input@.len() == 0
                &&& if self.input@.len() == 0 {
                    outgoing is None
                } else {
                    outgoing is Some && outgoing->0 is SendMessage && is_outgoing(
                        outgoing->0->SendMessage_0,
                        self.input@,
                    )
                }
            },
        }
    }

    /// Opens the input for a message, or closes it and hands back the message to send.
    /// An empty input sends nothing.
    pub fn enter_key_messages(&mut self) -> (outgoing: Option<IPCMessage>)
        ensures
            old(self).after_enter_messages(*final(self), outgoing),
    {
        match self.input_mode {
            InputMode::Normal => {
                self.input_mode = InputMode::Editing;
                None
            },
            InputMode::Editing => {
                let outgoing = if self.input.len() != 0 {
                    Some(
                        IPCMessage::SendMessage(
                            MessageEnvelope {
                                timestamp: 0,
                                source: None,
                                destination: PacketDestination::Broadcast,
                                channel: 0,
                                message: text_of(&self.input),
                                rx_rssi: 0,
                                rx_snr_bits: 0,
                            },
                        ),
                    )
                } else {
                    None
                };
                self.input = Vec::new();
                self.input_mode = InputMode::Normal;
                outgoing
            },
        }
    }

    /// Whether `after` and `outgoing` are what the enter key makes of this state.
    pub open spec fn after_enter(self, after: App, outgoing: Option<IPCMessage>) -> bool {
        match self.tab {
            MenuTabs::Nodes => self.same_but(after, set![Part::NodesTab])
                && self.nodes_tab.entered(after.nodes_tab) && outgoing is None,
            MenuTabs::Messages => self.after_enter_messages(after, outgoing),
            _ => self.same_but(after, Set::empty()) && outgoing is None,
        }
    }

    /// Hands the enter key to the tab that is shown.
    pub fn enter_key(&mut self) -> (outgoing: Option<IPCMessage>)
        ensures
            old(self).after_enter(*final(self), outgoing),
    {
        match self.tab {
            MenuTabs::Nodes => {
                self.nodes_tab.enter_key();
                None
            },
            MenuTabs::Messages => self.enter_key_messages(),
            MenuTabs::Channels => {
                self.channels_tab.enter_key();
                None
            },
            _ => None,
        }
    }

    /// Whether `after` and `outgoing` are what a key makes of this state. While a message
    /// is typed, keys edit it; otherwise they move about the dashboard.
    pub open spec fn after_key(self, key: Key, after: App, outgoing: Option<IPCMessage>) -> bool {
        match self.input_mode {
            InputMode::Normal => match key {
                Key::Char('q') | Key::Esc => self.after_escape(after) && outgoing is None,
                Key::Char('h') | Key::Left => self.after_left(after) && outgoing is None,
                Key::Char('l') | Key::Right => self.after_right(after) && outgoing is None,
                Key::Char('k') | Key::Up => self.after_prev(after) && outgoing is None,
                Key::Char('j') | Key::Down => self.after_next(after) && outgoing is None,
                Key::PageUp => self.after_prev_page(after) && outgoing is None,
                Key::PageDown => self.after_next_page(after) && outgoing is None,
                Key::Enter => self.after_enter(after, outgoing),
                Key::BackTab => self.after_prev_tab(after) && outgoing is None,
                Key::Tab => self.after_next_tab(after) && outgoing is None,
                _ => self.same_but(after, Set::empty()) && outgoing is None,
            },
            InputMode::Editing => match key {
                Key::Enter => self.after_enter(after, outgoing),
                Key::Char(c) => self.after_char(after, c) && outgoing is None,
                Key::Backspace => self.after_delete(after) && outgoing is None,
                Key::Left => self.after_cursor_left(after) && outgoing is None,
                Key::Right => self.after_cursor_right(after) && outgoing is None,
                Key::Esc => self.same_but(after, set![Part::InputMode]) && after.input_mode
                    == InputMode::Normal && outgoing is None,
                _ => self.same_but(after, Set::empty()) && outgoing is None,
            },
        }
    }

    /// Handles a key, and hands back the message to send where the key sends one.
    pub fn on_key(&mut self, key: Key) -> (outgoing: Option<IPCMessage>)
        ensures
            old(self).after_key(key, *final(self), outgoing),
    {
        match self.input_mode {
            InputMode::Normal => match key {
                Key::Char('q') | Key::Esc => {
                    self.escape();
                    None
                },
                Key::Char('h') | Key::Left => {
                    self.left();
                    None
                },
                Key::Char('l') | Key::Right => {
                    self.right();
                    None
                },
                Key::Char('k') | Key::Up => {
                    self.prev();
                    None
                },
                Key::Char('j') | Key::Down => {
                    self.next();
                    None
                },
                Key::PageUp => {
                    self.prev_page();
                    None
                },
                Key::PageDown => {
                    self.next_page();
                    None
                },
                Key::Enter => self.enter_key(),
                Key::BackTab => {
                    self.prev_tab();
                    None
                },
                Key::Tab => {
                    self.next_tab();
                    None
                },
                Key::F(n) => {
                    self.function_key(n);
                    None
                },
                _ => None,
            },
            InputMode::Editing => match key {
                Key::Enter => self.enter_key(),
                Key::Char(c) => {
                    self.enter_char(c);
                    None
                },
                Key::Backspace => {
                    self.delete_char();
                    None
                },
                Key::Left => {
                    self.move_cursor_left();
                    None
                },
                Key::Right => {
                    self.move_cursor_right();
                    None
                },
                Key::Esc => {
                    self.input_mode = InputMode::Normal;
                    None
                },
                _ => None,
            },
        }
    }

    /// Whether `after` is this state after the tab that is shown was refreshed: the list of
    /// nodes or of channels is in order, the page size is taken over, and everything else,
    /// in that tab and in the others, is as it was.
    pub open spec fn after_refresh(self, after: App, page_size: u16) -> bool {
        &&& after.nodes_tab.node_list == self.nodes_tab.node_list
        &&& after.messages_tab.messages == self.messages_tab.messages
        &&& match self.tab {
            MenuTabs::Nodes => {
                &&& self.same_but(after, set![Part::NodesTab])
                &&& self.nodes_tab.refreshed(after.nodes_tab, self.user_prefs, page_size)
            },
            MenuTabs::Messages => {
                &&& self.same_but(after, set![Part::MessagesTab])
                &&& after.messages_tab == (MessagesTab { page_size, ..self.messages_tab })
            },
            MenuTabs::Channels => {
                &&& self.same_but(after, set![Part::ChannelsTab])
                &&& self.channels_tab.refreshed(after.channels_tab, self.device_config, page_size)
            },
            _ => self.same_but(after, Set::empty()),
        }
    }

    /// Refreshes the tab that is shown before it is drawn, with the page size that the
    /// last drawing measured.
    pub fn refresh(&mut self, page_size: u16)
        ensures
            old(self).after_refresh(*final(self), page_size),
    {
        match self.tab {
            MenuTabs::Nodes => self.nodes_tab.run(&self.user_prefs, page_size),
            MenuTabs::Messages => self.messages_tab.run(page_size),
            MenuTabs::Channels => self.channels_tab.run(&self.device_config, page_size),
            _ => {},
        }
    }

    /// The log after an update: a text message is added to it, and nothing else touches it.
    pub open spec fn log_after(log: Seq<MessageEnvelope>, update: PacketResponse) -> Seq<
        MessageEnvelope,
    > {
        match update {
            PacketResponse::InboundMessage(message) => appended(log, message),
            _ => log,
        }
    }

    /// The configuration store after an update at `now`: a block of settings or a channel
    /// is merged into it, and nothing else touches it.
    pub open spec fn store_after(store: ConfigurationView, update: ResponseView, now: u64)
        -> ConfigurationView {
        match update {
            ResponseView::ConfigUpdate(block) => store.with_config(block, now),
            ResponseView::ModuleConfigUpdate(block) => store.with_module(block, now),
            ResponseView::ChannelUpdate(channel) => store.with_channel(channel, now),
            _ => store,
        }
    }

    /// Whether an update is one for the configuration store.
    pub open spec fn touches_store(update: ResponseView) -> bool {
        update is ConfigUpdate || update is ModuleConfigUpdate || update is ChannelUpdate
    }

    /// The address of the radio itself after an update.
    pub open spec fn address_after(address: u32, update: ResponseView) -> u32 {
        match update {
            ResponseView::OurAddress(own) => own,
            _ => address,
        }
    }

    /// Whether `after` is this state after `update` was applied at `now`.
    pub open spec fn after_update(self, after: App, update: PacketResponse, now: u64) -> bool {
        &&& self.same_but(after, set![Part::NodesTab, Part::MessagesTab, Part::DeviceConfig])
        &&& after.nodes_tab.registry() == registry_after(
            self.nodes_tab.registry(),
            Some(update@),
            now,
        )
        &&& after.nodes_tab.my_node_id == Self::address_after(self.nodes_tab.my_node_id, update@)
        &&& same_but_address(after.nodes_tab, self.nodes_tab)
        &&& after.messages_tab.log() == Self::log_after(self.messages_tab.log(), update)
        &&& after.messages_tab.selected == self.messages_tab.selected
        &&& after.messages_tab.editing == self.messages_tab.editing
        &&& after.messages_tab.page_size == self.messages_tab.page_size
        &&& store_view(after.device_config) == Self::store_after(
            store_view(self.device_config),
            update@,
            now,
        )
        &&& after.device_config is Some <==> self.device_config is Some || Self::touches_store(
            update@,
        )
    }

    /// Applies one update at `now`: to the registry, the message log or the configuration
    /// store, which is made at its first use.
    pub fn apply_update(&mut self, update: PacketResponse, now: u64)
        ensures
            old(self).after_update(*final(self), update, now),
    {
        match update {
            PacketResponse::NodeUpdate(id, change, rx) => {
                self.nodes_tab.upsert(id, change, rx);
            },
            PacketResponse::UserUpdate(id, user) => {
                self.nodes_tab.set_identity(id, user, now);
            },
            PacketResponse::InboundMessage(message) => {
                match &message.source {
                    Some(sender) => {
                        let rx = Reception {
                            seen_at: now,
                            rssi: message.rx_rssi,
                            snr_bits: message.rx_snr_bits,
                        };
                        self.nodes_tab.note_heard(sender.num, rx);
                    },
                    None => {},
                }
                self.messages_tab.append(message);
            },
            PacketResponse::OurAddress(address) => {
                self.nodes_tab.my_node_id = address;
            },
            PacketResponse::ConfigUpdate(block) => {
                merge_block(&mut self.device_config, StoreUpdate::Config(block), now);
            },
            PacketResponse::ModuleConfigUpdate(block) => {
                merge_block(&mut self.device_config, StoreUpdate::Module(block), now);
            },
            PacketResponse::ChannelUpdate(channel) => {
                merge_block(&mut self.device_config, StoreUpdate::Channel(channel), now);
            },
        }
    }

    /// Handles one message from the session task at `now`: a frame from the radio is
    /// interpreted against the registry as it stands and the update it asks for is
    /// applied. What there is to log is handed back.
    pub fn on_message(&mut self, packet: IPCMessage, now: u64) -> (notice: Notice)
        ensures
            match packet {
                IPCMessage::FromRadio(frame) => {
                    let meaning = interpretation(frame, old(self).nodes_tab.registry(), now);
                    &&& notice == meaning.notice
                    &&& final(self).nodes_tab.registry() == registry_after(
                        old(self).nodes_tab.registry(),
                        meaning.response,
                        now,
                    )
                    &&& meaning.response is None ==> old(self).same_but(*final(self), Set::empty())
                    &&& meaning.response is Some ==> exists|update: PacketResponse|
                        update@ == meaning.response->0 && old(self).after_update(
                            *final(self),
                            update,
                            now,
                        )
                },
                _ => notice == Notice::Silent && old(self).same_but(*final(self), Set::empty()),
            },
    {
        match packet {
            IPCMessage::FromRadio(frame) => {
                let meaning = interpret(frame, &self.nodes_tab.node_list, now);
                let notice = meaning.notice;
                match meaning.response {
                    Some(update) => {
                        self.apply_update(update, now);
                    },
                    None => {},
                }
                notice
            },
            _ => Notice::Silent,
        }
    }
}

/// Lemma: no key touches the registry, the message log or the configuration store: what a
/// frame leaves there does not depend on what the operator does in between.
pub proof fn lemma_keys_leave_state(app: App, key: Key, after: App, outgoing: Option<IPCMessage>)
    requires
        app.after_key(key, after, outgoing),
    ensures
        after.nodes_tab.node_list == app.nodes_tab.node_list,
        after.nodes_tab.my_node_id == app.nodes_tab.my_node_id,
        after.messages_tab.messages == app.messages_tab.messages,
        after.device_config == app.device_config,
{
}

/// Whether two tabs differ at most in their registries and in the address of the radio.
pub open spec fn same_but_address(a: NodesTab, b: NodesTab) -> bool {
    &&& a.selected == b.selected
    &&& a.table_contents == b.table_contents
    &&& a.scroll_position == b.scroll_position
    &&& a.prefs == b.prefs
    &&& a.display_mode == b.display_mode
    &&& a.selected_node == b.selected_node
    &&& a.page_size == b.page_size
}

} // verus!
