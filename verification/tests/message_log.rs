use meshtui::app::Mode;
use meshtui::consts::MAX_MSG_RETENTION;
use meshtui::frame::PacketDestination;
use meshtui::tabs::messages::{MessageEnvelope, MessagesTab};

fn message(timestamp: u32, text: &str) -> MessageEnvelope {
    MessageEnvelope {
        timestamp,
        source: None,
        destination: PacketDestination::Broadcast,
        channel: 0,
        message: text.to_string(),
        rx_rssi: 0,
        rx_snr_bits: 0,
    }
}

fn texts(tab: &MessagesTab) -> Vec<String> {
    tab.snapshot().into_iter().map(|m| m.message).collect()
}

#[test]
fn log_retains_one_hundred_twenty_eight_messages() {
    assert_eq!(MAX_MSG_RETENTION, 128);
}

#[test]
fn full_log_gives_up_its_oldest_messages() {
    let mut tab = MessagesTab::new();
    assert_eq!(tab.len(), 0);
    for i in 0..(MAX_MSG_RETENTION as u32 + 5) {
        tab.append(message(1000 + i, &format!("m{}", i)));
    }
    assert_eq!(tab.len(), MAX_MSG_RETENTION);
    let shown = tab.snapshot();
    assert_eq!(shown.len(), MAX_MSG_RETENTION);
    assert_eq!(shown[0].message, "m132");
    assert_eq!(shown[127].message, "m5");
    for m in &shown {
        assert!(m.timestamp >= 1005);
    }
    assert_eq!(tab.messages.get(0).unwrap().message, "m5");
}

#[test]
fn one_message_over_capacity_evicts_exactly_one() {
    let mut tab = MessagesTab::new();
    for i in 0..(MAX_MSG_RETENTION as u32) {
        tab.append(message(i, &format!("m{}", i)));
    }
    assert_eq!(tab.len(), 128);
    assert_eq!(tab.messages.get(0).unwrap().message, "m0");
    tab.append(message(500, "new"));
    assert_eq!(tab.len(), 128);
    assert_eq!(tab.messages.get(0).unwrap().message, "m1");
    assert_eq!(tab.messages.get(127).unwrap().message, "new");
}

#[test]
fn snapshot_shows_latest_timestamp_first() {
    let mut tab = MessagesTab::new();
    tab.append(message(30, "c"));
    tab.append(message(10, "a"));
    tab.append(message(20, "b"));
    assert_eq!(texts(&tab), vec!["c", "b", "a"]);
    assert_eq!(tab.display_order(), vec![0, 2, 1]);
}

#[test]
fn snapshot_shows_later_arrival_first_among_equal_timestamps() {
    let mut tab = MessagesTab::new();
    tab.append(message(10, "first"));
    tab.append(message(10, "second"));
    tab.append(message(20, "third"));
    tab.append(message(10, "fourth"));
    assert_eq!(texts(&tab), vec!["third", "fourth", "second", "first"]);
    assert_eq!(tab.display_order(), vec![2, 3, 1, 0]);
}

#[test]
fn snapshot_of_empty_log_is_empty() {
    let tab = MessagesTab::new();
    assert!(tab.snapshot().is_empty());
    assert!(tab.display_order().is_empty());
}

#[test]
fn snapshot_copies_messages_whole() {
    let mut tab = MessagesTab::new();
    let mut original = message(u32::MAX, "x");
    original.destination = PacketDestination::Node(5);
    original.channel = 3;
    original.rx_rssi = -120;
    original.rx_snr_bits = 7;
    tab.append(original.clone());
    tab.append(message(0, "y"));
    let shown = tab.snapshot();
    assert_eq!(shown[0], original);
    assert_eq!(shown[1], message(0, "y"));
}

#[test]
fn message_rows_move_with_wraparound() {
    let mut tab = MessagesTab::new();
    for i in 0..3 {
        tab.append(message(i, "m"));
    }
    tab.next_row();
    assert_eq!(tab.selected, Some(0));
    tab.next_row();
    tab.next_row();
    assert_eq!(tab.selected, Some(2));
    tab.next_row();
    assert_eq!(tab.selected, Some(0));
    tab.prev_row();
    assert_eq!(tab.selected, Some(2));
    tab.prev_row();
    assert_eq!(tab.selected, Some(1));
    let mut empty = MessagesTab::new();
    empty.prev_row();
    assert_eq!(empty.selected, Some(0));
    empty.prev_row();
    assert_eq!(empty.selected, Some(0));
    empty.next_row();
    assert_eq!(empty.selected, Some(0));
}

#[test]
fn message_pages_move_and_stop_at_the_ends() {
    let mut tab = MessagesTab::new();
    for i in 0..10 {
        tab.append(message(i, "m"));
    }
    tab.run(3);
    assert_eq!(tab.page_size, 3);
    tab.next_page();
    assert_eq!(tab.selected, Some(0));
    tab.next_page();
    assert_eq!(tab.selected, Some(3));
    tab.next_page();
    assert_eq!(tab.selected, Some(6));
    tab.next_page();
    assert_eq!(tab.selected, Some(9));
    tab.next_page();
    assert_eq!(tab.selected, Some(9));
    tab.prev_page();
    assert_eq!(tab.selected, Some(6));
    tab.selected = Some(3);
    tab.prev_page();
    assert_eq!(tab.selected, Some(0));
    tab.selected = Some(4);
    tab.prev_page();
    assert_eq!(tab.selected, Some(1));
}

#[test]
fn messages_tab_keys() {
    let mut tab = MessagesTab::new();
    assert!(!tab.editing);
    tab.enter_key();
    assert!(tab.editing);
    tab.enter_key();
    assert!(!tab.editing);
    tab.function_key(1);
    assert_eq!(tab.selected, None);
    assert_eq!(tab.escape(), Mode::Exiting);
}
