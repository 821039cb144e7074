use vstd::prelude::*;
use std::collections::HashMap;
use vstd::std_specs::iter::IteratorSpec;
use crate::app::Mode;
use crate::config::{channels_view, DeviceConfiguration};
use crate::frame::{Channel, ChannelView};
use crate::order::{lemma_permutation_hits, placed_before, sorted_positions, SortKey};
use crate::tabs::about::{row_down, row_up, step_down, step_up};

verus! {

/// Whether the tab shows the channels or the help.
#[derive(Debug, Clone, Copy, PartialEq, Eq, Structural)]
pub enum ChannelDisplayMode {
    List,
    Help,
}

/// The tab that lists the channels of the radio.
#[derive(Debug)]
pub struct ChannelsTab {
    pub row_index: usize,
    pub page_size: u16,
    pub display_mode: ChannelDisplayMode,
    /// The rows of the table as they were last put in order.
    pub table_contents: Vec<Channel>,
}

/// Whether the channel in slot `a` is listed above the one in slot `b`: the lower index
/// first and, of two channels that bear one index, the one in the lower slot.
pub open spec fn slot_before(channels: Map<i32, ChannelView>, a: i32, b: i32) -> bool {
    channels[a].index < channels[b].index || (channels[a].index == channels[b].index && a < b)
}

/// Whether `order` lists the slots of the channel table, each once, in the order of the
/// listing.
pub open spec fn is_slot_order(channels: Map<i32, ChannelView>, order: Seq<i32>) -> bool {
    &&& order.no_duplicates()
    &&& forall|slot: i32| order.contains(slot) <==> channels.contains_key(slot)
    &&& forall|i: int, j: int| 0 <= i < j < order.len() ==> slot_before(channels, order[i], order[j])
}

/// Whether `rows` are the channels of the table in the order of the listing.
pub open spec fn is_channel_listing(channels: Map<i32, ChannelView>, rows: Seq<ChannelView>)
    -> bool {
    exists|order: Seq<i32>|
        {
            &&& is_slot_order(channels, order)
            &&& rows.len() == order.len()
            &&& forall|i: int| 0 <= i < order.len() ==> rows[i] == channels[order[i]]
        }
}

/// The content of each row of a table.
pub open spec fn channel_rows_view(rows: Seq<Channel>) -> Seq<ChannelView> {
    rows.map_values(|row: Channel| row@)
}

/// The slots of a channel table, in no particular order.
fn channel_slots(channels: &HashMap<i32, Channel>) -> (slots: Vec<i32>)
    ensures
        slots@.no_duplicates(),
        forall|slot: i32| slots@.contains(slot) <==> channels@.contains_key(slot),
{
    let mut slots: Vec<i32> = Vec::new();
    proof {
        broadcast use vstd::std_specs::hash::group_hash_axioms;

    }
    let ghost keys = channels.keys().remaining();
    for slot in it: channels.keys()
        invariant
            it.seq() == keys,
            slots.len() == it.index(),
            forall|j: int| 0 <= j < slots.len() ==> slots@[j] == *keys[j],
    {
        slots.push(*slot);
    }
    proof {
        assert(slots@ =~= keys.unref());
        assert forall|slot: i32| slots@.contains(slot) <==> channels@.contains_key(slot) by {
            assert(slots@.to_set().contains(slot) <==> slots@.contains(slot));
        }
    }
    slots
}

/// A number that grows with `value` and is never negative.
fn rank(value: i32) -> (r: u64)
    ensures
        r == value - i32::MIN,
{
    let wide = value as i64;
    (wide + 0x8000_0000) as u64
}

/// The slots of a channel table in the order of the listing.
fn slot_order(channels: &HashMap<i32, Channel>) -> (order: Vec<i32>)
    ensures
        is_slot_order(channels_view(channels@), order@),
{
    let slots = channel_slots(channels);
    let n = slots.len();
    let mut keys: Vec<SortKey> = Vec::new();
    let mut i: usize = 0;
    while i < n
        invariant
            i <= n,
            n == slots@.len(),
            keys@.len() == i,
            forall|slot: i32| slots@.contains(slot) <==> channels@.contains_key(slot),
            forall|k: int|
                0 <= k < i ==> (#[trigger] keys@[k]) == (SortKey {
                    major: (channels@[slots@[k]].index - i32::MIN) as u64,
                    minor: (slots@[k] - i32::MIN) as u64,
                }),
        decreases n - i,
    {
        let slot = slots[i];
        assert(slots@.contains(slots@[i as int]));
        let index = match channels.get(&slot) {
            Some(channel) => channel.index,
            None => 0,
        };
        keys.push(SortKey { major: rank(index), minor: rank(slot) });
        i += 1;
    }
    let positions = sorted_positions(&keys);
    let mut order: Vec<i32> = Vec::new();
    let mut j: usize = 0;
    while j < positions.len()
        invariant
            j <= positions.len(),
            order@.len() == j,
            positions@.len() == slots@.len(),
            forall|t: int| 0 <= t < positions@.len() ==> (#[trigger] positions@[t]) < slots@.len(),
            forall|t: int| 0 <= t < j ==> (#[trigger] order@[t]) == slots@[positions@[t] as int],
        decreases positions.len() - j,
    {
        let position = positions[j];
        assert(positions@[j as int] < slots@.len());
        order.push(slots[position]);
        j += 1;
    }
    proof {
        let table = channels_view(channels@);
        assert forall|a: int, b: int| 0 <= a < order@.len() && 0 <= b < order@.len() && a
            != b implies order@[a] != order@[b] by {
            assert(positions@[a] != positions@[b]);
        }
        assert forall|slot: i32| order@.contains(slot) <==> table.contains_key(slot) by {
            if order@.contains(slot) {
                let t = choose|t: int| 0 <= t < order@.len() && order@[t] == slot;
                assert(slots@[positions@[t] as int] == slot);
                assert(slots@.contains(slot));
            }
            if table.contains_key(slot) {
                assert(slots@.contains(slot));
                let p = choose|p: int| 0 <= p < slots@.len() && slots@[p] == slot;
                lemma_permutation_hits(positions@, p as usize);
                let t = choose|t: int| 0 <= t < positions@.len() && positions@[t] == p;
                assert(order@[t] == slot);
            }
        }
        assert forall|a: int, b: int| 0 <= a < b < order@.len() implies slot_before(
            table,
            order@[a],
            order@[b],
        ) by {
            let x = positions@[a] as int;
            let y = positions@[b] as int;
            assert(x != y);
            assert(placed_before(keys@, x, y));
            assert(slots@[x] != slots@[y]);
            assert(slots@.contains(slots@[x]) && slots@.contains(slots@[y]));
        }
    }
    order
}

/// Copies of the channels of a table in the order of the listing.
pub fn listed_channels(channels: &HashMap<i32, Channel>) -> (rows: Vec<Channel>)
    ensures
        is_channel_listing(channels_view(channels@), channel_rows_view(rows@)),
{
    let order = slot_order(channels);
    let mut rows: Vec<Channel> = Vec::new();
    let mut i: usize = 0;
    while i < order.len()
        invariant
            i <= order.len(),
            rows@.len() == i,
            is_slot_order(channels_view(channels@), order@),
            forall|t: int|
                0 <= t < i ==> (#[trigger] rows@[t])@ == channels_view(channels@)[order@[t]],
        decreases order.len() - i,
    {
        let slot = order[i];
        proof {
            assert(order@.contains(order@[i as int]));
        }
        match channels.get(&slot) {
            Some(channel) => {
                rows.push(channel.duplicate());
            },
            None => {
                assert(false);
            },
        }
        i += 1;
    }
    proof {
        let shown = channel_rows_view(rows@);
        assert(shown.len() == order@.len());
        assert forall|t: int| 0 <= t < order@.len() implies shown[t] == channels_view(
            channels@,
        )[order@[t]] by {
            assert(shown[t] == rows@[t]@);
        }
    }
    rows
}

impl ChannelsTab {
    /// A tab on its first row with an empty table.
    pub fn new() -> (tab: ChannelsTab)
        ensures
            tab.row_index == 0,
            tab.page_size == 0,
            tab.display_mode == ChannelDisplayMode::List,
            tab.table_contents@.len() == 0,
    {
        ChannelsTab {
            row_index: 0,
            page_size: 0,
            display_mode: ChannelDisplayMode::List,
            table_contents: Vec::new(),
        }
    }

    /// Whether `after` is this tab after a refresh against the store `store` with the page
    /// size `page_size`: the page size is taken over, the rows are the channels of the
    /// store by index once there is a store, and nothing else has changed.
    pub open spec fn refreshed(
        self,
        after: ChannelsTab,
        store: Option<DeviceConfiguration>,
        page_size: u16,
    ) -> bool {
        &&& after.page_size == page_size
        &&& after.row_index == self.row_index
        &&& after.display_mode == self.display_mode
        &&& match store {
            Some(config) => is_channel_listing(
                config@.channels,
                channel_rows_view(after.table_contents@),
            ),
            None => after.table_contents == self.table_contents,
        }
    }

    /// Refreshes the table: takes over the page size and, once there is a configuration
    /// store, lists its channels by index.
    pub fn run(&mut self, store: &Option<DeviceConfiguration>, page_size: u16)
        ensures
            old(self).refreshed(*final(self), *store, page_size),
    {
        self.page_size = page_size;
        match store {
            Some(config) => {
                self.table_contents = listed_channels(&config.channels);
            },
            None => {},
        }
    }

    /// Leaving this tab leaves the dashboard.
    pub fn escape(&mut self) -> (mode: Mode)
        ensures
            mode == Mode::Exiting,
            *final(self) == *old(self),
    {
        Mode::Exiting
    }

    /// The enter key does nothing on this tab.
    pub fn enter_key(&mut self)
        ensures
            *final(self) == *old(self),
    {
    }

    /// Moves up by a row, stopping at the first.
    pub fn prev_row(&mut self)
        ensures
            *final(self) == (ChannelsTab { row_index: row_up(old(self).row_index), ..*old(self) }),
    {
        self.row_index = step_up(self.row_index);
    }

    /// Moves down by a row.
    pub fn next_row(&mut self)
        ensures
            *final(self) == (ChannelsTab {
                row_index: row_down(old(self).row_index),
                ..*old(self)
            }),
    {
        self.row_index = step_down(self.row_index);
    }

    /// The function keys do nothing on this tab.
    pub fn function_key(&mut self, _num: u8)
        ensures
            *final(self) == *old(self),
    {
    }
}

/// Lemma: the order in which the channels are listed is determined by the channel table:
/// there is only one.
pub proof fn lemma_slot_order_is_unique(channels: Map<i32, ChannelView>, a: Seq<i32>, b: Seq<i32>)
    requires
        is_slot_order(channels, a),
        is_slot_order(channels, b),
    ensures
        a == b,
{
    crate::order::lemma_sorted_lists_agree(|x: i32, y: i32| slot_before(channels, x, y), a, b);
}

} // verus!
