use meshtui::app::{App, InputMode, Key, MenuTabs, Mode};
use meshtui::frame::PacketDestination;
use meshtui::ipc::IPCMessage;
use meshtui::nav::{page_after, page_before, row_after, row_before, side_percentage};
use meshtui::order::{sorted_positions, SortKey};
use meshtui::tabs::about::{step_down, step_up, AboutTab};
use meshtui::tabs::config::ConfigTab;
use meshtui::tabs::device_config::InnerConfigTabs;
use meshtui::tabs::modules_config::{ModuleTabs, ModulesConfigTab};
use meshtui::tabs::nodes::DisplayMode;

fn typed(app: &App) -> String {
    app.input.iter().collect()
}

fn key(major: u64, minor: u64) -> SortKey {
    SortKey { major, minor }
}

#[test]
fn new_dashboard_shows_messages_and_runs() {
    let app = App::new();
    assert!(app.is_running());
    assert_eq!(app.mode, Mode::Running);
    assert_eq!(app.tab, MenuTabs::Messages);
    assert_eq!(app.input_mode, InputMode::Normal);
    assert_eq!(app.cursor_position, 0);
    assert!(app.input.is_empty());
    assert!(app.device_config.is_none());
}

#[test]
fn menu_tabs_step_and_stop_at_the_ends() {
    let order = [
        MenuTabs::Messages,
        MenuTabs::Nodes,
        MenuTabs::Channels,
        MenuTabs::DeviceConfig,
        MenuTabs::ModulesConfig,
        MenuTabs::About,
    ];
    for i in 0..order.len() {
        let right = if i + 1 < order.len() { order[i + 1] } else { order[i] };
        let left = if i > 0 { order[i - 1] } else { order[i] };
        assert_eq!(order[i].next(), right);
        assert_eq!(order[i].prev(), left);
    }
    assert_eq!(MenuTabs::Messages.title(), " Messages ");
    assert_eq!(MenuTabs::DeviceConfig.title(), " DeviceConfig ");
    assert_eq!(MenuTabs::About.title(), " About ");
}

#[test]
fn settings_tabs_step_and_stop_at_the_ends() {
    assert_eq!(InnerConfigTabs::Device.prev(), InnerConfigTabs::Device);
    assert_eq!(InnerConfigTabs::Device.next(), InnerConfigTabs::Bluetooth);
    assert_eq!(InnerConfigTabs::LoRa.next(), InnerConfigTabs::Network);
    assert_eq!(InnerConfigTabs::Power.next(), InnerConfigTabs::Power);
    assert_eq!(InnerConfigTabs::Power.prev(), InnerConfigTabs::Position);
    assert_eq!(InnerConfigTabs::LoRa.title(), " LoRa ");
    assert_eq!(ModuleTabs::Mqtt.prev(), ModuleTabs::Mqtt);
    assert_eq!(ModuleTabs::Mqtt.next(), ModuleTabs::Serial);
    assert_eq!(ModuleTabs::DetectionSensor.next(), ModuleTabs::Paxcounter);
    assert_eq!(ModuleTabs::Paxcounter.next(), ModuleTabs::Paxcounter);
    assert_eq!(ModuleTabs::Paxcounter.prev(), ModuleTabs::DetectionSensor);
    assert_eq!(ModuleTabs::ExternalNotification.title(), " ExternalNotification ");
    let mut tab = ModulesConfigTab::new();
    tab.right();
    tab.right();
    assert_eq!(tab.tab, ModuleTabs::ExternalNotification);
    tab.left();
    assert_eq!(tab.tab, ModuleTabs::Serial);
    tab.next_row();
    tab.next_row();
    tab.prev_row();
    assert_eq!(tab.row_index, 1);
}

#[test]
fn plain_tabs_count_rows() {
    let mut about = AboutTab::new();
    about.prev_row();
    assert_eq!(about.row_index, 0);
    about.next_row();
    about.next_row();
    assert_eq!(about.row_index, 2);
    about.enter_key();
    assert_eq!(about.row_index, 2);
    assert_eq!(about.escape(), Mode::Exiting);
    about.row_index = usize::MAX;
    about.next_row();
    assert_eq!(about.row_index, usize::MAX);
    let mut config = ConfigTab::new();
    config.next_row();
    config.prev_row();
    config.prev_row();
    assert_eq!(config.row_index, 0);
    assert_eq!(config.escape(), Mode::Exiting);
    assert_eq!(step_up(0), 0);
    assert_eq!(step_up(5), 4);
    assert_eq!(step_down(5), 6);
    assert_eq!(step_down(usize::MAX), usize::MAX);
}

#[test]
fn selection_arithmetic() {
    assert_eq!(row_before(None, 5), 0);
    assert_eq!(row_before(Some(0), 5), 4);
    assert_eq!(row_before(Some(3), 5), 2);
    assert_eq!(row_before(Some(0), 0), 0);
    assert_eq!(row_after(None, 5), 0);
    assert_eq!(row_after(Some(4), 5), 0);
    assert_eq!(row_after(Some(3), 5), 4);
    assert_eq!(row_after(Some(9), 5), 0);
    assert_eq!(row_after(Some(0), 0), 0);
    assert_eq!(page_before(None, 10), 0);
    assert_eq!(page_before(Some(10), 10), 0);
    assert_eq!(page_before(Some(11), 10), 1);
    assert_eq!(page_before(Some(3), 0), 3);
    assert_eq!(page_after(None, 50, 10), 0);
    assert_eq!(page_after(Some(0), 50, 10), 10);
    assert_eq!(page_after(Some(39), 50, 10), 49);
    assert_eq!(page_after(Some(40), 50, 10), 49);
    assert_eq!(page_after(Some(45), 50, 10), 49);
    assert_eq!(page_after(Some(2), 5, 10), 4);
    assert_eq!(page_after(Some(2), 0, 10), 0);
    assert_eq!(page_after(Some(usize::MAX), usize::MAX, 1), usize::MAX - 1);
}

#[test]
fn keys_are_sorted_by_major_then_minor() {
    let keys = vec![key(5, 1), key(1, 9), key(5, 0), key(0, 0), key(1, 2)];
    assert_eq!(sorted_positions(&keys), vec![3, 4, 1, 2, 0]);
    assert!(sorted_positions(&Vec::new()).is_empty());
    assert_eq!(sorted_positions(&vec![key(u64::MAX, u64::MAX), key(u64::MAX, 0)]), vec![1, 0]);
    assert_eq!(sorted_positions(&vec![key(7, 7)]), vec![0]);
}

#[test]
fn entries_with_equal_keys_keep_their_order() {
    let same = vec![key(1, 1), key(1, 1), key(1, 1)];
    assert_eq!(sorted_positions(&same), vec![0, 1, 2]);
    let mixed = vec![key(2, 0), key(1, 5), key(2, 0), key(1, 5), key(0, 9), key(2, 0)];
    assert_eq!(sorted_positions(&mixed), vec![4, 1, 3, 0, 2, 5]);
}

#[test]
fn keys_move_between_tabs() {
    let mut app = App::new();
    assert_eq!(app.on_key(Key::Tab), None);
    assert_eq!(app.tab, MenuTabs::Nodes);
    app.on_key(Key::Tab);
    app.on_key(Key::Tab);
    assert_eq!(app.tab, MenuTabs::DeviceConfig);
    app.on_key(Key::Right);
    app.on_key(Key::Char('l'));
    assert_eq!(app.device_config_tab.tab, InnerConfigTabs::Display);
    app.on_key(Key::Char('h'));
    assert_eq!(app.device_config_tab.tab, InnerConfigTabs::Bluetooth);
    app.on_key(Key::Down);
    app.on_key(Key::Char('j'));
    app.on_key(Key::PageDown);
    assert_eq!(app.device_config_tab.row_index, 3);
    app.on_key(Key::Up);
    app.on_key(Key::Char('k'));
    app.on_key(Key::PageUp);
    assert_eq!(app.device_config_tab.row_index, 1);
    app.on_key(Key::BackTab);
    assert_eq!(app.tab, MenuTabs::Channels);
    app.on_key(Key::PageDown);
    assert_eq!(app.channels_tab.row_index, 0);
    app.on_key(Key::Down);
    assert_eq!(app.channels_tab.row_index, 1);
    app.on_key(Key::F(1));
    app.on_key(Key::Other);
    app.on_key(Key::Backspace);
    app.on_key(Key::Char('x'));
    assert_eq!(app.tab, MenuTabs::Channels);
    assert!(app.input.is_empty());
    assert!(app.is_running());
    app.on_key(Key::Char('q'));
    assert!(!app.is_running());
    assert_eq!(app.mode, Mode::Exiting);
}

#[test]
fn escape_closes_details_before_it_leaves() {
    let mut app = App::new();
    app.tab = MenuTabs::Nodes;
    app.nodes_tab.display_mode = DisplayMode::Detail;
    app.on_key(Key::Esc);
    assert!(app.is_running());
    assert_eq!(app.nodes_tab.display_mode, DisplayMode::List);
    app.on_key(Key::Esc);
    assert!(!app.is_running());
}

#[test]
fn typing_and_sending_a_message() {
    let mut app = App::new();
    assert_eq!(app.on_key(Key::Enter), None);
    assert_eq!(app.input_mode, InputMode::Editing);
    for c in "helo".chars() {
        assert_eq!(app.on_key(Key::Char(c)), None);
    }
    assert_eq!(typed(&app), "helo");
    assert_eq!(app.cursor_position, 4);
    app.on_key(Key::Left);
    assert_eq!(app.cursor_position, 3);
    app.on_key(Key::Char('l'));
    assert_eq!(typed(&app), "hello");
    assert_eq!(app.cursor_position, 4);
    app.on_key(Key::Right);
    app.on_key(Key::Right);
    assert_eq!(app.cursor_position, 5);
    app.on_key(Key::Char('!'));
    app.on_key(Key::Char('?'));
    app.on_key(Key::Backspace);
    assert_eq!(typed(&app), "hello!");
    assert_eq!(app.cursor_position, 6);
    app.on_key(Key::Tab);
    app.on_key(Key::Up);
    assert_eq!(app.tab, MenuTabs::Messages);
    match app.on_key(Key::Enter) {
        Some(IPCMessage::SendMessage(envelope)) => {
            assert_eq!(envelope.message, "hello!");
            assert_eq!(envelope.destination, PacketDestination::Broadcast);
            assert_eq!(envelope.channel, 0);
            assert_eq!(envelope.timestamp, 0);
            assert_eq!(envelope.source, None);
            assert_eq!(envelope.rx_rssi, 0);
            assert_eq!(envelope.rx_snr_bits, 0);
        }
        other => panic!("unexpected outcome {:?}", other),
    }
    assert_eq!(app.input_mode, InputMode::Normal);
    assert!(app.input.is_empty());
}

#[test]
fn empty_input_sends_nothing() {
    let mut app = App::new();
    app.on_key(Key::Enter);
    assert_eq!(app.on_key(Key::Enter), None);
    assert_eq!(app.input_mode, InputMode::Normal);
    app.on_key(Key::Enter);
    app.on_key(Key::Char('a'));
    app.on_key(Key::Esc);
    assert_eq!(app.input_mode, InputMode::Normal);
    assert_eq!(typed(&app), "a");
    assert!(app.is_running());
}

#[test]
fn cursor_stays_within_the_input() {
    let mut app = App::new();
    app.move_cursor_left();
    assert_eq!(app.cursor_position, 0);
    app.move_cursor_right();
    assert_eq!(app.cursor_position, 0);
    app.delete_char();
    assert!(app.input.is_empty());
    app.enter_char('\u{e9}');
    app.enter_char('b');
    assert_eq!(typed(&app), "\u{e9}b");
    assert_eq!(app.cursor_position, 2);
    app.move_cursor_left();
    app.delete_char();
    assert_eq!(typed(&app), "b");
    assert_eq!(app.cursor_position, 0);
    assert_eq!(app.clamp_cursor(0), 0);
    assert_eq!(app.clamp_cursor(1), 1);
    assert_eq!(app.clamp_cursor(9), 1);
    app.cursor_position = 50;
    app.enter_char('z');
    assert_eq!(typed(&app), "bz");
    assert_eq!(app.cursor_position, 2);
    app.cursor_position = 50;
    app.delete_char();
    assert_eq!(typed(&app), "bz");
    assert_eq!(app.cursor_position, 2);
}

#[test]
fn enter_on_other_tabs_does_nothing() {
    let mut app = App::new();
    app.tab = MenuTabs::Channels;
    assert_eq!(app.enter_key(), None);
    app.tab = MenuTabs::About;
    assert_eq!(app.enter_key(), None);
    assert_eq!(app.input_mode, InputMode::Normal);
    app.tab = MenuTabs::Nodes;
    assert_eq!(app.enter_key(), None);
    assert_eq!(app.nodes_tab.display_mode, DisplayMode::List);
}

#[test]
fn margins_of_a_centered_part() {
    assert_eq!(side_percentage(60), 20);
    assert_eq!(side_percentage(25), 37);
    assert_eq!(side_percentage(75), 12);
    assert_eq!(side_percentage(100), 0);
    assert_eq!(side_percentage(0), 50);
}
