//! The node registry and the tab that lists it.

use vstd::prelude::*;
use std::collections::HashMap;
use vstd::std_specs::iter::IteratorSpec;
use crate::app::{Mode, Preferences};
use crate::frame::{Port, User};
use crate::ipc::OutboundPacket;
use crate::nav::{page_after, page_before, row_after, row_before};
use crate::node::{ComprehensiveNode, NodeChange, NodeView, Reception};
use crate::order::{placed_before, sorted_positions, SortKey};
use crate::tabs::messages::MessageView;
use crate::codec::{neighbor_info_payload, port_of_number, telemetry_payload};
use crate::frame::{Data, MeshPacket, PacketPayload, TelemetryReading};
use crate::ipc::RadioFrame;
use crate::packet_handler::{interpretation, nodes_view, ResponseView};

verus! {

/// Whether the tab shows the list of nodes or the details of one.
#[derive(Debug, Clone, Copy, PartialEq, Eq, Structural)]
pub enum DisplayMode {
    List,
    Detail,
}

/// The registry of nodes, and what the tab that lists them remembers.
#[derive(Debug)]
pub struct NodesTab {
    /// The record of every node that was ever referred to, by address.
    pub node_list: HashMap<u32, ComprehensiveNode>,
    /// The row of the table that is selected, if any.
    pub selected: Option<usize>,
    /// The rows of the table as they were last put in order.
    pub table_contents: Vec<ComprehensiveNode>,
    /// The position of the scrollbar.
    pub scroll_position: usize,
    /// The address of the radio itself.
    pub my_node_id: u32,
    pub prefs: Preferences,
    pub display_mode: DisplayMode,
    /// The node whose details are shown.
    pub selected_node: ComprehensiveNode,
    pub page_size: u16,
}

/// The record under `id`, or that of a node of which only the address is known.
pub open spec fn record_or_new(nodes: Map<u32, NodeView>, id: u32) -> NodeView {
    if nodes.contains_key(id) {
        nodes[id]
    } else {
        NodeView::with_id(id)
    }
}

/// Whether every record is filed under its own address.
pub open spec fn well_filed(nodes: Map<u32, NodeView>) -> bool {
    forall|id: u32| nodes.contains_key(id) ==> (#[trigger] nodes[id]).id == id
}

/// Whether a node is listed: one that is reached over MQTT only where the operator asked
/// for those.
pub open spec fn is_visible(node: NodeView, show_mqtt: bool) -> bool {
    show_mqtt || !node.node_info.via_mqtt
}

/// Whether the node under `a` is listed above the node under `b`: the one seen later
/// first and, of two seen at the same time, the one with the lower address.
pub open spec fn listed_before(nodes: Map<u32, NodeView>, a: u32, b: u32) -> bool {
    nodes[a].last_seen > nodes[b].last_seen || (nodes[a].last_seen == nodes[b].last_seen && a < b)
}

/// Whether `order` lists the addresses of the visible nodes, each once, in the order of
/// the listing.
pub open spec fn is_listing_order(nodes: Map<u32, NodeView>, show_mqtt: bool, order: Seq<u32>)
    -> bool {
    &&& order.no_duplicates()
    &&& forall|id: u32|
        order.contains(id) <==> nodes.contains_key(id) && is_visible(nodes[id], show_mqtt)
    &&& forall|i: int, j: int|
        0 <= i < j < order.len() ==> listed_before(nodes, order[i], order[j])
}

/// The registry after an update was applied at `now`. An update of a node's record or
/// identity makes the record first where there is none; a text message counts as hearing
/// its sender; no update removes a record.
pub open spec fn registry_after(nodes: Map<u32, NodeView>, update: Option<ResponseView>, now: u64)
    -> Map<u32, NodeView> {
    match update {
        Some(ResponseView::NodeUpdate(id, change, rx)) => nodes.insert(
            id,
            record_or_new(nodes, id).changed(change, rx),
        ),
        Some(ResponseView::UserUpdate(id, user)) => nodes.insert(
            id,
            record_or_new(nodes, id).identified(user, now),
        ),
        Some(ResponseView::InboundMessage(message)) => registry_after_message(nodes, message, now),
        _ => nodes,
    }
}

/// The registry after a text message arrived at `now`: its sender, where there is a record
/// of it, was heard.
pub open spec fn registry_after_message(nodes: Map<u32, NodeView>, message: MessageView, now: u64)
    -> Map<u32, NodeView> {
    match message.source {
        Some(sender) => if nodes.contains_key(sender.num) {
            nodes.insert(
                sender.num,
                nodes[sender.num].heard(
                    Reception {
                        seen_at: now,
                        rssi: message.rx_rssi,
                        snr_bits: message.rx_snr_bits,
                    },
                ),
            )
        } else {
            nodes
        },
        None => nodes,
    }
}

/// Whether two tabs differ in their registries at most.
pub open spec fn same_but_registry(a: NodesTab, b: NodesTab) -> bool {
    &&& a.selected == b.selected
    &&& a.table_contents == b.table_contents
    &&& a.scroll_position == b.scroll_position
    &&& a.my_node_id == b.my_node_id
    &&& a.prefs == b.prefs
    &&& a.display_mode == b.display_mode
    &&& a.selected_node == b.selected_node
    &&& a.page_size == b.page_size
}

/// The content of each row of a table.
pub open spec fn rows_view(rows: Seq<ComprehensiveNode>) -> Seq<NodeView> {
    rows.map_values(|row: ComprehensiveNode| row@)
}

/// Whether `rows` are the records of the visible nodes in the order of the listing.
pub open spec fn is_listing(nodes: Map<u32, NodeView>, show_mqtt: bool, rows: Seq<NodeView>)
    -> bool {
    exists|order: Seq<u32>|
        {
            &&& is_listing_order(nodes, show_mqtt, order)
            &&& rows.len() == order.len()
            &&& forall|i: int| 0 <= i < order.len() ==> rows[i] == nodes[order[i]]
        }
}

impl NodesTab {
    /// The records of the registry, by address.
    pub open spec fn registry(&self) -> Map<u32, NodeView> {
        nodes_view(self.node_list@)
    }

    /// A tab with an empty registry, showing the list, with nothing selected.
    pub fn new() -> (tab: NodesTab)
        ensures
            tab.registry() == Map::<u32, NodeView>::empty(),
            tab.selected is None,
            tab.table_contents@.len() == 0,
            tab.scroll_position == 0,
            tab.my_node_id == 0,
            tab.prefs.initialized@.len() == 0,
            !tab.prefs.show_mqtt,
            tab.display_mode == DisplayMode::List,
            tab.selected_node@ == NodeView::with_id(0),
            tab.page_size == 0,
    {
        let tab = NodesTab {
            node_list: HashMap::new(),
            selected: None,
            table_contents: Vec::new(),
            scroll_position: 0,
            my_node_id: 0,
            prefs: Preferences { initialized: String::new(), show_mqtt: false },
            display_mode: DisplayMode::List,
            selected_node: ComprehensiveNode::with_id(0),
            page_size: 0,
        };
        proof {
            assert(tab.registry() =~= Map::<u32, NodeView>::empty());
        }
        tab
    }

    /// A copy of the record under `id`, if there is one.
    pub fn get(&self, id: u32) -> (record: Option<ComprehensiveNode>)
        ensures
            record is Some <==> self.registry().contains_key(id),
            record is Some ==> record->0@ == self.registry()[id],
    {
        match self.node_list.get(&id) {
            Some(node) => Some(node.duplicate()),
            None => None,
        }
    }

    /// Makes one change to the record under `id`, making the record first where there is
    /// none.
    pub fn upsert(&mut self, id: u32, change: NodeChange, rx: Reception)
        ensures
            final(self).registry() == old(self).registry().insert(
                id,
                record_or_new(old(self).registry(), id).changed(change@, rx),
            ),
            same_but_registry(*final(self), *old(self)),
    {
        let mut node = match self.node_list.remove(&id) {
            Some(node) => node,
            None => ComprehensiveNode::with_id(id),
        };
        node.apply(change, rx);
        self.node_list.insert(id, node);
        proof {
            assert(final(self).registry() =~= old(self).registry().insert(
                id,
                record_or_new(old(self).registry(), id).changed(change@, rx),
            ));
        }
    }

    /// Sets the identity of the node under `id`, making the record first where there is
    /// none.
    pub fn set_identity(&mut self, id: u32, user: User, now: u64)
        ensures
            final(self).registry() == old(self).registry().insert(
                id,
                record_or_new(old(self).registry(), id).identified(user, now),
            ),
            same_but_registry(*final(self), *old(self)),
    {
        let mut node = match self.node_list.remove(&id) {
            Some(node) => node,
            None => ComprehensiveNode::with_id(id),
        };
        node.identify(user, now);
        self.node_list.insert(id, node);
        proof {
            assert(final(self).registry() =~= old(self).registry().insert(
                id,
                record_or_new(old(self).registry(), id).identified(user, now),
            ));
        }
    }

    /// Notes that the node under `id` was heard, where there is a record of it.
    pub fn note_heard(&mut self, id: u32, rx: Reception)
        ensures
            final(self).registry() == if old(self).registry().contains_key(id) {
                old(self).registry().insert(id, old(self).registry()[id].heard(rx))
            } else {
                old(self).registry()
            },
            same_but_registry(*final(self), *old(self)),
    {
        match self.node_list.remove(&id) {
            Some(node) => {
                let mut node = node;
                node.note_heard(rx);
                self.node_list.insert(id, node);
                proof {
                    assert(final(self).registry() =~= old(self).registry().insert(
                        id,
                        old(self).registry()[id].heard(rx),
                    ));
                }
            },
            None => {
                proof {
                    assert(final(self).registry() =~= old(self).registry());
                }
            },
        }
    }

    /// The addresses of the visible nodes in the order of the listing: the node seen last
    /// comes first, and of two nodes seen at the same time the one with the lower address.
    pub fn presentation_order(&self) -> (order: Vec<u32>)
        ensures
            is_listing_order(self.registry(), self.prefs.show_mqtt, order@),
    {
        let shown = visible_keys(&self.node_list, self.prefs.show_mqtt);
        proof {
            assert forall|i: int| 0 <= i < shown@.len() implies self.node_list@.contains_key(
                #[trigger] shown@[i],
            ) by {
                assert(shown@.contains(shown@[i]));
            }
        }
        in_listing_order(&self.node_list, &shown)
    }

    /// Copies of the records of the visible nodes in the order of the listing.
    pub fn snapshot(&self) -> (rows: Vec<ComprehensiveNode>)
        ensures
            is_listing(self.registry(), self.prefs.show_mqtt, rows_view(rows@)),
    {
        let order = self.presentation_order();
        let mut rows: Vec<ComprehensiveNode> = Vec::new();
        let mut i: usize = 0;
        while i < order.len()
            invariant
                i <= order.len(),
                rows@.len() == i,
                is_listing_order(self.registry(), self.prefs.show_mqtt, order@),
                forall|t: int| 0 <= t < i ==> (#[trigger] rows@[t])@ == self.registry()[order@[t]],
            decreases order.len() - i,
        {
            let id = order[i];
            proof {
                assert(order@.contains(order@[i as int]));
            }
            match self.node_list.get(&id) {
                Some(node) => {
                    rows.push(node.duplicate());
                },
                None => {
                    assert(false);
                },
            }
            i += 1;
        }
        proof {
            let shown = rows_view(rows@);
            assert(shown.len() == order@.len());
            assert forall|t: int| 0 <= t < order@.len() implies shown[t] == self.registry()[order@[t]] by {
                assert(shown[t] == rows@[t]@);
            }
        }
        rows
    }

    /// Whether `after` is this tab after a refresh with the operator's preferences `prefs`
    /// and the page size `page_size`: the preferences are taken over where the tab had
    /// none yet, the page size is taken over, the rows are the visible nodes in the order
    /// of the listing, and nothing else has changed.
    pub open spec fn refreshed(self, after: NodesTab, prefs: Preferences, page_size: u16) -> bool {
        &&& after.node_list == self.node_list
        &&& after.prefs == if self.prefs.initialized@.len() == 0 {
            prefs
        } else {
            self.prefs
        }
        &&& after.page_size == page_size
        &&& is_listing(after.registry(), after.prefs.show_mqtt, rows_view(after.table_contents@))
        &&& after.selected == self.selected
        &&& after.scroll_position == self.scroll_position
        &&& after.my_node_id == self.my_node_id
        &&& after.display_mode == self.display_mode
        &&& after.selected_node == self.selected_node
    }

    /// Refreshes the table: takes over the operator's preferences where the tab has none
    /// yet, takes over the page size, and lists the visible nodes anew.
    pub fn run(&mut self, prefs: &Preferences, page_size: u16)
        ensures
            old(self).refreshed(*final(self), *prefs, page_size),
    {
        if self.prefs.initialized.as_str().is_empty() {
            self.prefs = Preferences {
                initialized: prefs.initialized.clone(),
                show_mqtt: prefs.show_mqtt,
            };
        }
        self.page_size = page_size;
        let rows = self.snapshot();
        self.table_contents = rows;
    }

    /// Leaves the details for the list, and the list for good.
    pub fn escape(&mut self) -> (mode: Mode)
        ensures
            mode == old(self).mode_after_escape(),
            old(self).escaped(*final(self)),
    {
        match self.display_mode {
            DisplayMode::List => Mode::Exiting,
            DisplayMode::Detail => {
                self.display_mode = DisplayMode::List;
                Mode::Running
            },
        }
    }

    /// Opens the details of the selected row, or closes them. Without a selected row the
    /// list stays.
    pub fn enter_key(&mut self)
        ensures
            old(self).entered(*final(self)),
    {
        match self.display_mode {
            DisplayMode::List => {
                if let Some(row) = self.selected {
                    if row < self.table_contents.len() {
                        self.selected_node = self.table_contents[row].duplicate();
                        self.display_mode = DisplayMode::Detail;
                    }
                }
            },
            DisplayMode::Detail => {
                self.display_mode = DisplayMode::List;
            },
        }
    }

    /// Asks for the route to the node of the selected row: that node becomes the one whose
    /// details are shown, and the request for the radio is handed back. Without a selected
    /// row nothing happens.
    pub fn back_tab(&mut self) -> (request: Option<OutboundPacket>)
        ensures
            final(self).node_list == old(self).node_list,
            same_but_choice(*final(self), *old(self)),
            final(self).display_mode == old(self).display_mode,
            request is Some <==> old(self).selects_row(),
            old(self).selects_row() ==> final(self).selected_node@ == old(self).selected_row()
                && is_traceroute_request(request->0, old(self).selected_row().id),
            !old(self).selects_row() ==> final(self).selected_node == old(self).selected_node,
    {
        match self.selected {
            Some(row) => {
                if row < self.table_contents.len() {
                    self.selected_node = self.table_contents[row].duplicate();
                    Some(traceroute_request(self.selected_node.id))
                } else {
                    None
                }
            },
            None => None,
        }
    }

    /// Moves the selection up by a row, from the first row to the last, and the scrollbar
    /// with it.
    pub fn prev_row(&mut self)
        ensures
            old(self).moved_to(
                *final(self),
                row_before(old(self).selected, old(self).table_contents@.len() as usize),
                true,
            ),
    {
        let row = row_before(self.selected, self.table_contents.len());
        self.selected = Some(row);
        self.scroll_position = row;
    }

    /// Moves the selection down by a row, from the last row to the first, and the
    /// scrollbar with it.
    pub fn next_row(&mut self)
        ensures
            old(self).moved_to(
                *final(self),
                row_after(old(self).selected, old(self).table_contents@.len() as usize),
                true,
            ),
    {
        let row = row_after(self.selected, self.table_contents.len());
        self.selected = Some(row);
        self.scroll_position = row;
    }

    /// Moves the selection down by a page, stopping at the last node of the registry.
    pub fn next_page(&mut self)
        ensures
            old(self).moved_to(
                *final(self),
                page_after(
                    old(self).selected,
                    old(self).node_list@.len() as usize,
                    old(self).page_size,
                ),
                false,
            ),
    {
        let row = page_after(self.selected, self.node_list.len(), self.page_size);
        self.selected = Some(row);
    }

    /// Moves the selection up by a page, stopping at the first row.
    pub fn prev_page(&mut self)
        ensures
            old(self).moved_to(
                *final(self),
                page_before(old(self).selected, old(self).page_size),
                false,
            ),
    {
        self.selected = Some(page_before(self.selected, self.page_size));
    }

    /// Whether a row of the table is selected.
    pub open spec fn selects_row(self) -> bool {
        self.selected is Some && self.selected->0 < self.table_contents@.len()
    }

    /// The content of the selected row.
    pub open spec fn selected_row(self) -> NodeView {
        self.table_contents@[self.selected->0 as int]@
    }

    /// What escaping from this tab does to the dashboard: it leaves from the list and goes
    /// on from the details.
    pub open spec fn mode_after_escape(self) -> Mode {
        if self.display_mode == DisplayMode::List {
            Mode::Exiting
        } else {
            Mode::Running
        }
    }

    /// Whether `after` is this tab after the escape key: it shows the list, and nothing
    /// else has changed.
    pub open spec fn escaped(self, after: NodesTab) -> bool {
        &&& after.display_mode == DisplayMode::List
        &&& after.node_list == self.node_list
        &&& same_but_mode(after, self)
    }

    /// Whether `after` is this tab after the enter key: the details are closed where they
    /// were open, and opened on the selected row where there is one.
    pub open spec fn entered(self, after: NodesTab) -> bool {
        &&& after.node_list == self.node_list
        &&& same_but_choice(after, self)
        &&& if self.display_mode == DisplayMode::Detail {
            after.display_mode == DisplayMode::List && after.selected_node == self.selected_node
        } else if self.selects_row() {
            after.display_mode == DisplayMode::Detail && after.selected_node@
                == self.selected_row()
        } else {
            after.display_mode == DisplayMode::List && after.selected_node == self.selected_node
        }
    }

    /// Whether `after` is this tab with `row` selected, the scrollbar moved there too where
    /// `scrolls`, and nothing else changed.
    pub open spec fn moved_to(self, after: NodesTab, row: usize, scrolls: bool) -> bool {
        &&& after.node_list == self.node_list
        &&& same_but_selection(after, self)
        &&& after.selected == Some(row)
        &&& after.scroll_position == if scrolls {
            row
        } else {
            self.scroll_position
        }
    }
}

/// Whether two tabs differ at most in whether they show the list or the details.
pub open spec fn same_but_mode(a: NodesTab, b: NodesTab) -> bool {
    &&& a.selected == b.selected
    &&& a.table_contents == b.table_contents
    &&& a.scroll_position == b.scroll_position
    &&& a.my_node_id == b.my_node_id
    &&& a.prefs == b.prefs
    &&& a.selected_node == b.selected_node
    &&& a.page_size == b.page_size
}

/// Whether two tabs differ at most in the node whose details are shown and in whether
/// they show them.
pub open spec fn same_but_choice(a: NodesTab, b: NodesTab) -> bool {
    &&& a.selected == b.selected
    &&& a.table_contents == b.table_contents
    &&& a.scroll_position == b.scroll_position
    &&& a.my_node_id == b.my_node_id
    &&& a.prefs == b.prefs
    &&& a.page_size == b.page_size
}

/// Whether two tabs differ at most in the selected row and the scrollbar.
pub open spec fn same_but_selection(a: NodesTab, b: NodesTab) -> bool {
    &&& a.table_contents == b.table_contents
    &&& a.my_node_id == b.my_node_id
    &&& a.prefs == b.prefs
    &&& a.display_mode == b.display_mode
    &&& a.selected_node == b.selected_node
    &&& a.page_size == b.page_size
}

/// What a battery level says about the power of a node.
#[derive(Debug, Clone, Copy, PartialEq, Eq)]
pub enum BatteryState {
    /// Nothing is known.
    Unknown,
    /// The battery holds this many percent of its charge, from 1 to 100.
    Charge(u32),
    /// The node runs on external power.
    Powered,
}

/// What a battery level stands for: 1 to 100 are percent, 101 is external power, and any
/// other level says nothing.
pub open spec fn spec_battery_state(level: u32) -> BatteryState {
    if 1 <= level <= 100 {
        BatteryState::Charge(level)
    } else if level == 101 {
        BatteryState::Powered
    } else {
        BatteryState::Unknown
    }
}

#[verifier::when_used_as_spec(spec_battery_state)]
pub fn battery_state(level: u32) -> (state: BatteryState)
    ensures
        state == spec_battery_state(level),
{
    if 1 <= level && level <= 100 {
        BatteryState::Charge(level)
    } else if level == 101 {
        BatteryState::Powered
    } else {
        BatteryState::Unknown
    }
}

/// The seconds from `then` to `now`, where `then` is a time at all: 0 stands for a time
/// that is not known, and so nothing has elapsed since. A time after `now` counts as `now`.
pub open spec fn spec_elapsed_since(now: u64, then: u64) -> Option<u64> {
    if then == 0 || now == 0 {
        None
    } else if then >= now {
        Some(0)
    } else {
        Some((now - then) as u64)
    }
}

#[verifier::when_used_as_spec(spec_elapsed_since)]
pub fn elapsed_since(now: u64, then: u64) -> (elapsed: Option<u64>)
    ensures
        elapsed == spec_elapsed_since(now, then),
{
    if then == 0 || now == 0 {
        None
    } else if then >= now {
        Some(0)
    } else {
        Some(now - then)
    }
}

/// Whether a packet asks the node `destination` to report the route to it: an empty
/// payload to the traceroute port that wants an acknowledgement and a response.
pub open spec fn is_traceroute_request(packet: OutboundPacket, destination: u32) -> bool {
    &&& packet.to == destination
    &&& packet.channel == 0
    &&& packet.want_ack
    &&& packet.via_mqtt
    &&& packet.port == Port::Traceroute
    &&& packet.payload@.len() == 0
    &&& packet.want_response
}

/// The packet that asks the node `destination` to report the route to it.
pub fn traceroute_request(destination: u32) -> (packet: OutboundPacket)
    ensures
        is_traceroute_request(packet, destination),
{
    OutboundPacket {
        to: destination,
        channel: 0,
        want_ack: true,
        via_mqtt: true,
        port: Port::Traceroute,
        payload: Vec::new(),
        want_response: true,
    }
}

/// The addresses under which a registry holds records, in no particular order.
fn registry_keys(nodes: &HashMap<u32, ComprehensiveNode>) -> (ids: Vec<u32>)
    ensures
        ids@.no_duplicates(),
        forall|id: u32| ids@.contains(id) <==> nodes@.contains_key(id),
{
    let mut ids: Vec<u32> = Vec::new();
    proof {
        broadcast use vstd::std_specs::hash::group_hash_axioms;

    }
    let ghost keys = nodes.keys().remaining();
    for id in it: nodes.keys()
        invariant
            it.seq() == keys,
            ids.len() == it.index(),
            forall|j: int| 0 <= j < ids.len() ==> ids@[j] == *keys[j],
    {
        ids.push(*id);
    }
    proof {
        assert(ids@ =~= keys.unref());
        assert forall|id: u32| ids@.contains(id) <==> nodes@.contains_key(id) by {
            assert(ids@.to_set().contains(id) <==> ids@.contains(id));
        }
    }
    ids
}

/// The addresses of the nodes that are listed, in no particular order.
fn visible_keys(nodes: &HashMap<u32, ComprehensiveNode>, show_mqtt: bool) -> (shown: Vec<u32>)
    ensures
        shown@.no_duplicates(),
        forall|id: u32|
            shown@.contains(id) <==> nodes@.contains_key(id) && is_visible(
                nodes_view(nodes@)[id],
                show_mqtt,
            ),
{
    let ids = registry_keys(nodes);
    let mut shown: Vec<u32> = Vec::new();
    let mut i: usize = 0;
    while i < ids.len()
        invariant
            i <= ids.len(),
            ids@.no_duplicates(),
            forall|id: u32| ids@.contains(id) <==> nodes@.contains_key(id),
            shown@.no_duplicates(),
            forall|id: u32|
                shown@.contains(id) <==> ids@.take(i as int).contains(id) && is_visible(
                    nodes_view(nodes@)[id],
                    show_mqtt,
                ),
        decreases ids.len() - i,
    {
        let id = ids[i];
        let ghost before = shown@;
        proof {
            assert(ids@.contains(id));
            assert(ids@.take(i + 1) =~= ids@.take(i as int).push(id));
            assert(!ids@.take(i as int).contains(id)) by {
                if ids@.take(i as int).contains(id) {
                    let j = choose|j: int| 0 <= j < i && ids@.take(i as int)[j] == id;
                    assert(ids@[j] == ids@[i as int]);
                }
            }
        }
        let listed = match nodes.get(&id) {
            Some(node) => show_mqtt || !node.node_info.via_mqtt,
            None => false,
        };
        if listed {
            shown.push(id);
        }
        proof {
            if listed {
                assert(!before.contains(id));
                assert forall|a: int, b: int|
                    0 <= a < shown@.len() && 0 <= b < shown@.len() && a != b implies shown@[a]
                    != shown@[b] by {
                    if a < before.len() {
                        assert(before.contains(shown@[a]));
                    }
                    if b < before.len() {
                        assert(before.contains(shown@[b]));
                    }
                }
            }
            assert forall|k: u32|
                shown@.contains(k) <==> ids@.take(i + 1).contains(k) && is_visible(
                    nodes_view(nodes@)[k],
                    show_mqtt,
                ) by {
                if listed {
                    assert(shown@ =~= before.push(id));
                    assert(shown@[before.len() as int] == id);
                    if before.contains(k) {
                        let j = choose|j: int| 0 <= j < before.len() && before[j] == k;
                        assert(shown@[j] == k);
                    }
                }
                if ids@.take(i as int).contains(k) {
                    let j = choose|j: int| 0 <= j < i && ids@.take(i as int)[j] == k;
                    assert(ids@.take(i + 1)[j] == k);
                }
                if k == id {
                    assert(ids@.take(i + 1)[i as int] == id);
                }
            }
        }
        i += 1;
    }
    proof {
        assert(ids@.take(i as int) =~= ids@);
    }
    shown
}

/// Puts the addresses of `shown` in the order of the listing.
fn in_listing_order(nodes: &HashMap<u32, ComprehensiveNode>, shown: &Vec<u32>) -> (order: Vec<u32>)
    requires
        shown@.no_duplicates(),
        forall|i: int| 0 <= i < shown@.len() ==> nodes@.contains_key(#[trigger] shown@[i]),
    ensures
        order@.no_duplicates(),
        forall|id: u32| order@.contains(id) <==> shown@.contains(id),
        forall|i: int, j: int|
            0 <= i < j < order@.len() ==> listed_before(nodes_view(nodes@), order@[i], order@[j]),
{
    let n = shown.len();
    let mut keys: Vec<SortKey> = Vec::new();
    let mut i: usize = 0;
    while i < n
        invariant
            i <= n,
            n == shown@.len(),
            keys@.len() == i,
            forall|t: int| 0 <= t < shown@.len() ==> nodes@.contains_key(#[trigger] shown@[t]),
            forall|k: int|
                0 <= k < i ==> (#[trigger] keys@[k]) == (SortKey {
                    major: (u64::MAX - nodes@[shown@[k]].last_seen) as u64,
                    minor: shown@[k] as u64,
                }),
        decreases n - i,
    {
        let id = shown[i];
        assert(nodes@.contains_key(shown@[i as int]));
        let last_seen = match nodes.get(&id) {
            Some(node) => node.last_seen,
            None => 0,
        };
        keys.push(SortKey { major: u64::MAX - last_seen, minor: id as u64 });
        i += 1;
    }
    let positions = sorted_positions(&keys);
    let mut order: Vec<u32> = Vec::new();
    let mut j: usize = 0;
    while j < positions.len()
        invariant
            j <= positions.len(),
            order@.len() == j,
            positions@.len() == shown@.len(),
            forall|t: int| 0 <= t < positions@.len() ==> (#[trigger] positions@[t]) < shown@.len(),
            forall|t: int| 0 <= t < j ==> (#[trigger] order@[t]) == shown@[positions@[t] as int],
        decreases positions.len() - j,
    {
        let position = positions[j];
        assert(positions@[j as int] < shown@.len());
        order.push(shown[position]);
        j += 1;
    }
    proof {
        assert forall|a: int, b: int| 0 <= a < order@.len() && 0 <= b < order@.len() && a
            != b implies order@[a] != order@[b] by {
            assert(positions@[a] != positions@[b]);
        }
        assert forall|id: u32| order@.contains(id) <==> shown@.contains(id) by {
            if order@.contains(id) {
                let t = choose|t: int| 0 <= t < order@.len() && order@[t] == id;
                assert(shown@[positions@[t] as int] == id);
            }
            if shown@.contains(id) {
                let p = choose|p: int| 0 <= p < shown@.len() && shown@[p] == id;
                crate::order::lemma_permutation_hits(positions@, p as usize);
                let t = choose|t: int| 0 <= t < positions@.len() && positions@[t] == p;
                assert(order@[t] == id);
            }
        }
        assert forall|a: int, b: int| 0 <= a < b < order@.len() implies listed_before(
            nodes_view(nodes@),
            order@[a],
            order@[b],
        ) by {
            let x = positions@[a] as int;
            let y = positions@[b] as int;
            assert(x != y);
            assert(placed_before(keys@, x, y));
            assert(shown@[x] != shown@[y]);
            assert(nodes@.contains_key(shown@[x]) && nodes@.contains_key(shown@[y]));
        }
    }
    order
}

/// The registry after a frame that arrived at `now` was interpreted and the update it asks
/// for was applied.
pub open spec fn registry_after_frame(nodes: Map<u32, NodeView>, frame: RadioFrame, now: u64)
    -> Map<u32, NodeView> {
    registry_after(nodes, interpretation(frame, nodes, now).response, now)
}

/// The registry after frames were handled in turn, each at its own time of arrival.
pub open spec fn replayed(nodes: Map<u32, NodeView>, frames: Seq<(RadioFrame, u64)>) -> Map<
    u32,
    NodeView,
>
    decreases frames.len(),
{
    if frames.len() == 0 {
        nodes
    } else {
        registry_after_frame(replayed(nodes, frames.drop_last()), frames.last().0, frames.last().1)
    }
}

/// Lemma: the registry depends on the frames and on their order alone, not on how their
/// handling is spread over time: handling a run of frames at once leaves the registry as
/// handling its first part does, followed by the rest.
pub proof fn lemma_replay_in_parts(
    nodes: Map<u32, NodeView>,
    first: Seq<(RadioFrame, u64)>,
    rest: Seq<(RadioFrame, u64)>,
)
    ensures
        replayed(nodes, first + rest) == replayed(replayed(nodes, first), rest),
    decreases rest.len(),
{
    if rest.len() == 0 {
        assert(first + rest =~= first);
    } else {
        lemma_replay_in_parts(nodes, first, rest.drop_last());
        assert((first + rest).drop_last() =~= first + rest.drop_last());
        assert((first + rest).last() == rest.last());
    }
}

/// Lemma: no frame removes a record.
pub proof fn lemma_records_stay(nodes: Map<u32, NodeView>, frame: RadioFrame, now: u64, id: u32)
    requires
        nodes.contains_key(id),
    ensures
        registry_after_frame(nodes, frame, now).contains_key(id),
{
}

/// Lemma: every frame leaves the registry well filed.
pub proof fn lemma_frames_keep_filing(nodes: Map<u32, NodeView>, frame: RadioFrame, now: u64)
    requires
        well_filed(nodes),
    ensures
        well_filed(registry_after_frame(nodes, frame, now)),
{
    let after = registry_after_frame(nodes, frame, now);
    assert forall|id: u32| after.contains_key(id) implies (#[trigger] after[id]).id == id by {
        if nodes.contains_key(id) {
            assert(nodes[id].id == id);
        }
    }
}

/// Lemma: metrics from a sender without a record are not lost: the frame makes a record
/// for the sender, filed under its address and without an identity, that holds what was
/// reported.
pub proof fn lemma_metrics_make_record(
    packet: MeshPacket,
    data: Data,
    nodes: Map<u32, NodeView>,
    now: u64,
)
    requires
        packet.payload_variant == Some(PacketPayload::Decoded(data)),
        port_of_number(data.portnum) == crate::frame::Port::Telemetry,
        telemetry_payload(data.payload@) matches Some(reading) && (reading is Device
            || reading is Environment),
        !nodes.contains_key(packet.from),
    ensures
        ({
            let after = registry_after_frame(nodes, RadioFrame::Packet(packet), now);
            let reading = telemetry_payload(data.payload@)->0;
            &&& after.contains_key(packet.from)
            &&& after[packet.from].id == packet.from
            &&& after[packet.from].node_info.user is None
            &&& after[packet.from].last_seen == now
            &&& after[packet.from].timeseries.len() == 1
            &&& reading matches TelemetryReading::Device(metrics)
                ==> after[packet.from].node_info.device_metrics == Some(metrics)
                && after[packet.from].timeseries[0].device == metrics
            &&& reading matches TelemetryReading::Environment(metrics)
                ==> after[packet.from].timeseries[0].environment == metrics
        }),
{
}

/// The node that a neighbor-info payload reports for.
pub open spec fn reported_node(payload: Seq<u8>) -> u32 {
    match neighbor_info_payload(payload) {
        Some((reported, _)) => reported,
        None => 0,
    }
}

/// The neighbor table that a neighbor-info payload reports.
pub open spec fn reported_table(payload: Seq<u8>) -> Seq<crate::frame::Neighbor> {
    match neighbor_info_payload(payload) {
        Some((_, neighbors)) => neighbors,
        None => Seq::empty(),
    }
}

/// Lemma: a neighbor table from a sender without a record is not lost: where there is no
/// record of the node it is reported for either, the frame makes a record for the sender,
/// filed under its address and without an identity, that holds the table.
pub proof fn lemma_neighbors_make_record(
    packet: MeshPacket,
    data: Data,
    nodes: Map<u32, NodeView>,
    now: u64,
)
    requires
        packet.payload_variant == Some(PacketPayload::Decoded(data)),
        port_of_number(data.portnum) == crate::frame::Port::NeighborInfo,
        neighbor_info_payload(data.payload@) is Some,
        !nodes.contains_key(packet.from),
        !nodes.contains_key(reported_node(data.payload@)),
    ensures
        ({
            let after = registry_after_frame(nodes, RadioFrame::Packet(packet), now);
            &&& after.contains_key(packet.from)
            &&& after[packet.from].id == packet.from
            &&& after[packet.from].node_info.user is None
            &&& after[packet.from].last_seen == now
            &&& after[packet.from].neighbors == reported_table(data.payload@)
        }),
{
}

/// Lemma: a position from a sender without a record makes a record for the sender, filed
/// under its address and without an identity, that holds the fix.
pub proof fn lemma_position_makes_record(
    packet: MeshPacket,
    data: Data,
    nodes: Map<u32, NodeView>,
    now: u64,
)
    requires
        packet.payload_variant == Some(PacketPayload::Decoded(data)),
        port_of_number(data.portnum) == crate::frame::Port::Position,
        crate::codec::position_payload(data.payload@) is Some,
        !nodes.contains_key(packet.from),
    ensures
        ({
            let after = registry_after_frame(nodes, RadioFrame::Packet(packet), now);
            &&& after.contains_key(packet.from)
            &&& after[packet.from].id == packet.from
            &&& after[packet.from].node_info.user is None
            &&& after[packet.from].last_seen == now
            &&& after[packet.from].node_info.position == crate::codec::position_payload(
                data.payload@,
            )
            &&& after.dom() == nodes.dom().insert(packet.from)
        }),
{
    let after = registry_after_frame(nodes, RadioFrame::Packet(packet), now);
    assert(after.dom() =~= nodes.dom().insert(packet.from));
}

/// Lemma: a text message from a sender without a record changes nothing in the registry
/// and asks for no update; what is logged about it is informational.
pub proof fn lemma_unattributed_text_is_dropped(
    packet: MeshPacket,
    data: Data,
    nodes: Map<u32, NodeView>,
    now: u64,
)
    requires
        packet.payload_variant == Some(PacketPayload::Decoded(data)),
        port_of_number(data.portnum) == crate::frame::Port::TextMessage,
        vstd::utf8::valid_utf8(data.payload@),
        !nodes.contains_key(packet.from),
    ensures
        interpretation(RadioFrame::Packet(packet), nodes, now).response is None,
        interpretation(RadioFrame::Packet(packet), nodes, now).notice.spec_severity() == Some(
            crate::frame::Severity::Info,
        ),
        registry_after_frame(nodes, RadioFrame::Packet(packet), now) == nodes,
{
}

/// Lemma: the order of the listing is determined by the registry and by what the operator
/// asked to see: there is only one.
pub proof fn lemma_listing_order_is_unique(
    nodes: Map<u32, NodeView>,
    show_mqtt: bool,
    a: Seq<u32>,
    b: Seq<u32>,
)
    requires
        is_listing_order(nodes, show_mqtt, a),
        is_listing_order(nodes, show_mqtt, b),
    ensures
        a == b,
{
    crate::order::lemma_sorted_lists_agree(|x: u32, y: u32| listed_before(nodes, x, y), a, b);
}

/// Lemma: of two updates to the record of one node, the later is applied to what the
/// earlier left: the record that both leave is the old one, or a new one, changed first
/// by the earlier and then by the later.
pub proof fn lemma_updates_apply_in_order(
    nodes: Map<u32, NodeView>,
    id: u32,
    first: crate::node::NodeChangeView,
    first_rx: Reception,
    second: crate::node::NodeChangeView,
    second_rx: Reception,
    now: u64,
)
    ensures
        ({
            let between = registry_after(
                nodes,
                Some(ResponseView::NodeUpdate(id, first, first_rx)),
                now,
            );
            let after = registry_after(
                between,
                Some(ResponseView::NodeUpdate(id, second, second_rx)),
                now,
            );
            &&& after.contains_key(id)
            &&& after[id] == record_or_new(nodes, id).changed(first, first_rx).changed(
                second,
                second_rx,
            )
            &&& after.dom() == nodes.dom().insert(id)
            &&& forall|other: u32| other != id && nodes.contains_key(other) ==> after[other]
                == nodes[other]
        }),
{
    let between = registry_after(nodes, Some(ResponseView::NodeUpdate(id, first, first_rx)), now);
    let after = registry_after(
        between,
        Some(ResponseView::NodeUpdate(id, second, second_rx)),
        now,
    );
    assert(after.dom() =~= nodes.dom().insert(id));
}

} // verus!
