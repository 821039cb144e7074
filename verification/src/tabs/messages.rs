//! The log of text messages: a ring that keeps the latest arrivals, and the tab that
//! shows them.

use vstd::prelude::*;
use circular_buffer::CircularBuffer;
use crate::app::Mode;
use crate::consts::MAX_MSG_RETENTION;
use crate::frame::{NodeInfo, PacketDestination};
use crate::nav::{page_after, page_before, row_after, row_before};
use crate::order::{is_permutation, placed_before, sorted_positions, SortKey};

verus! {

/// A text message as it was received, or as it is about to be sent.
#[derive(Debug, Clone, PartialEq, Eq)]
pub struct MessageEnvelope {
    pub timestamp: u32,
    /// What was known of the sender when the message arrived.
    pub source: Option<NodeInfo>,
    pub destination: PacketDestination,
    pub channel: u32,
    pub message: String,
    pub rx_rssi: i32,
    pub rx_snr_bits: u32,
}

/// The mathematical content of a `MessageEnvelope`.
pub struct MessageView {
    pub timestamp: u32,
    pub source: Option<NodeInfo>,
    pub destination: PacketDestination,
    pub channel: u32,
    pub message: Seq<char>,
    pub rx_rssi: i32,
    pub rx_snr_bits: u32,
}

impl View for MessageEnvelope {
    type V = MessageView;

    open spec fn view(&self) -> MessageView {
        MessageView {
            timestamp: self.timestamp,
            source: self.source,
            destination: self.destination,
            channel: self.channel,
            message: self.message@,
            rx_rssi: self.rx_rssi,
            rx_snr_bits: self.rx_snr_bits,
        }
    }
}

/// The `CircularBuffer` of the crate `circular_buffer`: a ring of at most `N` items.
/// Opaque here; `ring_contents` names what one holds.
#[verifier::external_type_specification]
#[verifier::external_body]
#[verifier::reject_recursive_types(T)]
pub struct ExCircularBuffer<const N: usize, T>(CircularBuffer<N, T>);

/// The messages a ring holds, the oldest first.
pub uninterp spec fn ring_contents(
    ring: CircularBuffer<MAX_MSG_RETENTION, MessageEnvelope>,
) -> Seq<MessageEnvelope>;

/// The log after one more message arrived: the message stands last, and where the log was
/// full its oldest message has left.
pub open spec fn appended(log: Seq<MessageEnvelope>, message: MessageEnvelope) -> Seq<
    MessageEnvelope,
> {
    if log.len() < MAX_MSG_RETENTION {
        log.push(message)
    } else {
        log.drop_first().push(message)
    }
}

/// The log after all of `messages` arrived in turn.
pub open spec fn appended_all(log: Seq<MessageEnvelope>, messages: Seq<MessageEnvelope>) -> Seq<
    MessageEnvelope,
>
    decreases messages.len(),
{
    if messages.len() == 0 {
        log
    } else {
        appended(appended_all(log, messages.drop_last()), messages.last())
    }
}

/// Whether the message at position `a` of `log` is shown above the one at position `b`:
/// the later timestamp first and, of two messages with one timestamp, the later arrival.
pub open spec fn shown_above(log: Seq<MessageEnvelope>, a: int, b: int) -> bool {
    log[a].timestamp > log[b].timestamp || (log[a].timestamp == log[b].timestamp && a > b)
}

/// Whether `order` lists the positions of `log` in the order of display.
pub open spec fn is_display_order(log: Seq<MessageEnvelope>, order: Seq<usize>) -> bool {
    &&& is_permutation(order, log.len())
    &&& forall|i: int, j: int|
        0 <= i < j < order.len() ==> shown_above(log, order[i] as int, order[j] as int)
}

/// Calls `CircularBuffer::new`, which makes a ring that holds nothing.
#[verifier::external_body]
fn ring_new() -> (ring: CircularBuffer<MAX_MSG_RETENTION, MessageEnvelope>)
    ensures
        ring_contents(ring) == Seq::<MessageEnvelope>::empty(),
{
    CircularBuffer::new()
}

/// Calls `CircularBuffer::len`: the number of items held, which never exceeds the capacity.
#[verifier::external_body]
fn ring_len(ring: &CircularBuffer<MAX_MSG_RETENTION, MessageEnvelope>) -> (len: usize)
    ensures
        len == ring_contents(*ring).len(),
        len <= MAX_MSG_RETENTION,
{
    ring.len()
}

/// Calls `CircularBuffer::push_back`, which appends the item and, where the ring is at
/// capacity, drops the item at the front to make room.
#[verifier::external_body]
fn ring_push_back(
    ring: &mut CircularBuffer<MAX_MSG_RETENTION, MessageEnvelope>,
    message: MessageEnvelope,
)
    ensures
        ring_contents(*final(ring)) == appended(ring_contents(*old(ring)), message),
{
    ring.push_back(message)
}

/// Calls `CircularBuffer::to_vec`, which clones the items into a vector, front first.
#[verifier::external_body]
fn ring_to_vec(ring: &CircularBuffer<MAX_MSG_RETENTION, MessageEnvelope>) -> (items: Vec<
    MessageEnvelope,
>)
    ensures
        items@ == ring_contents(*ring),
{
    ring.to_vec()
}

/// The tab that lists the text messages received.
#[derive(Debug)]
pub struct MessagesTab {
    pub messages: CircularBuffer<MAX_MSG_RETENTION, MessageEnvelope>,
    /// The row of the table that is selected, if any.
    pub selected: Option<usize>,
    pub editing: bool,
    pub page_size: u16,
}

impl MessagesTab {
    /// The messages held, the oldest arrival first.
    pub open spec fn log(&self) -> Seq<MessageEnvelope> {
        ring_contents(self.messages)
    }

    /// A tab with an empty log and nothing selected.
    pub fn new() -> (tab: MessagesTab)
        ensures
            tab.log() == Seq::<MessageEnvelope>::empty(),
            tab.selected is None,
            !tab.editing,
            tab.page_size == 0,
    {
        MessagesTab { messages: ring_new(), selected: None, editing: false, page_size: 0 }
    }

    /// The number of messages held.
    pub fn len(&self) -> (len: usize)
        ensures
            len == self.log().len(),
            len <= MAX_MSG_RETENTION,
    {
        ring_len(&self.messages)
    }

    /// Adds a message to the log. A full log gives up its oldest message for it.
    pub fn append(&mut self, message: MessageEnvelope)
        ensures
            final(self).log() == appended(old(self).log(), message),
            final(self).selected == old(self).selected,
            final(self).editing == old(self).editing,
            final(self).page_size == old(self).page_size,
    {
        ring_push_back(&mut self.messages, message);
    }

    /// The positions of the messages in the order of display: latest timestamp first.
    pub fn display_order(&self) -> (order: Vec<usize>)
        ensures
            is_display_order(self.log(), order@),
    {
        let items = ring_to_vec(&self.messages);
        order_of(&items)
    }

    /// The messages in the order of display: latest timestamp first.
    pub fn snapshot(&self) -> (shown: Vec<MessageEnvelope>)
        ensures
            exists|order: Seq<usize>|
                {
                    &&& is_display_order(self.log(), order)
                    &&& shown@.len() == order.len()
                    &&& forall|i: int|
                        0 <= i < order.len() ==> shown@[i] == self.log()[order[i] as int]
                },
    {
        let items = ring_to_vec(&self.messages);
        let order = order_of(&items);
        let mut shown: Vec<MessageEnvelope> = Vec::new();
        let mut i: usize = 0;
        while i < order.len()
            invariant
                i <= order.len(),
                shown@.len() == i,
                is_display_order(items@, order@),
                forall|t: int| 0 <= t < i ==> shown@[t] == items@[order@[t] as int],
            decreases order.len() - i,
        {
            let position = order[i];
            assert(order@[i as int] < items@.len());
            shown.push(duplicate(&items[position]));
            i += 1;
        }
        proof {
            assert(is_display_order(self.log(), order@));
        }
        shown
    }

    /// Takes over the page size that the last drawing of the table measured.
    pub fn run(&mut self, page_size: u16)
        ensures
            *final(self) == (MessagesTab { page_size, ..*old(self) }),
    {
        self.page_size = page_size;
    }

    /// Leaving this tab leaves the dashboard.
    pub fn escape(&mut self) -> (mode: Mode)
        ensures
            mode == Mode::Exiting,
            *final(self) == *old(self),
    {
        Mode::Exiting
    }

    /// Switches between reading and writing.
    pub fn enter_key(&mut self)
        ensures
            *final(self) == (MessagesTab { editing: !old(self).editing, ..*old(self) }),
    {
        self.editing = !self.editing;
    }

    /// Moves the selection up by a row, from the first row to the last.
    pub fn prev_row(&mut self)
        ensures
            *final(self) == (MessagesTab {
                selected: Some(row_before(old(self).selected, old(self).log().len() as usize)),
                ..*old(self)
            }),
    {
        let len = self.len();
        self.selected = Some(row_before(self.selected, len));
    }

    /// Moves the selection up by a page, stopping at the first row.
    pub fn prev_page(&mut self)
        ensures
            *final(self) == (MessagesTab {
                selected: Some(page_before(old(self).selected, old(self).page_size)),
                ..*old(self)
            }),
    {
        self.selected = Some(page_before(self.selected, self.page_size));
    }

    /// Moves the selection down by a row, from the last row to the first.
    pub fn next_row(&mut self)
        ensures
            *final(self) == (MessagesTab {
                selected: Some(row_after(old(self).selected, old(self).log().len() as usize)),
                ..*old(self)
            }),
    {
        let len = self.len();
        self.selected = Some(row_after(self.selected, len));
    }

    /// Moves the selection down by a page, stopping at the last row.
    pub fn next_page(&mut self)
        ensures
            *final(self) == (MessagesTab {
                selected: Some(
                    page_after(
                        old(self).selected,
                        old(self).log().len() as usize,
                        old(self).page_size,
                    ),
                ),
                ..*old(self)
            }),
    {
        let len = self.len();
        self.selected = Some(page_after(self.selected, len, self.page_size));
    }

    /// The function keys do nothing on this tab.
    pub fn function_key(&mut self, _num: u8)
        ensures
            *final(self) == *old(self),
    {
    }
}

/// A copy of a message, field for field.
fn duplicate(message: &MessageEnvelope) -> (r: MessageEnvelope)
    ensures
        r == *message,
{
    let source = match &message.source {
        Some(info) => Some(info.duplicate()),
        None => None,
    };
    MessageEnvelope {
        timestamp: message.timestamp,
        source,
        destination: message.destination,
        channel: message.channel,
        message: message.message.clone(),
        rx_rssi: message.rx_rssi,
        rx_snr_bits: message.rx_snr_bits,
    }
}

/// The positions of `items` in the order of display.
fn order_of(items: &Vec<MessageEnvelope>) -> (order: Vec<usize>)
    ensures
        is_display_order(items@, order@),
{
    let n = items.len();
    let mut keys: Vec<SortKey> = Vec::new();
    let mut i: usize = 0;
    while i < n
        invariant
            i <= n,
            n == items@.len(),
            keys@.len() == i,
            forall|k: int|
                0 <= k < i ==> (#[trigger] keys@[k]) == (SortKey {
                    major: (u32::MAX - items@[k].timestamp) as u64,
                    minor: (n - 1 - k) as u64,
                }),
        decreases n - i,
    {
        keys.push(
            SortKey {
                major: (u32::MAX - items[i].timestamp) as u64,
                minor: (n - 1 - i) as u64,
            },
        );
        i += 1;
    }
    let order = sorted_positions(&keys);
    proof {
        assert forall|a: int, b: int| 0 <= a < b < order@.len() implies shown_above(
            items@,
            order@[a] as int,
            order@[b] as int,
        ) by {
            let x = order@[a] as int;
            let y = order@[b] as int;
            assert(x != y);
            assert(placed_before(keys@, x, y));
        }
    }
    order
}

/// Lemma: a log that was empty and then took `messages`, at least as many as it has room
/// for, holds exactly as many as it has room for: the last ones to arrive, in their order.
/// Where no message bears an earlier timestamp than one that arrived before it, no message
/// that left the log is newer than one that it kept.
pub proof fn lemma_log_keeps_latest(messages: Seq<MessageEnvelope>)
    requires
        messages.len() >= MAX_MSG_RETENTION,
    ensures
        appended_all(Seq::empty(), messages).len() == MAX_MSG_RETENTION,
        appended_all(Seq::empty(), messages) == messages.subrange(
            messages.len() - MAX_MSG_RETENTION,
            messages.len() as int,
        ),
        (forall|i: int, j: int|
            0 <= i < j < messages.len() ==> messages[i].timestamp <= messages[j].timestamp)
            ==> forall|gone: int, kept: int|
            0 <= gone < messages.len() - MAX_MSG_RETENTION <= kept < messages.len()
                ==> messages[gone].timestamp <= messages[kept].timestamp,
{
    lemma_log_is_tail(messages);
}

/// Lemma: a log that was empty and then took `messages` holds the last of them, as many as
/// it has room for, in the order of their arrival.
pub proof fn lemma_log_is_tail(messages: Seq<MessageEnvelope>)
    ensures
        messages.len() <= MAX_MSG_RETENTION ==> appended_all(Seq::empty(), messages) == messages,
        messages.len() > MAX_MSG_RETENTION ==> appended_all(Seq::empty(), messages)
            == messages.subrange(messages.len() - MAX_MSG_RETENTION, messages.len() as int),
    decreases messages.len(),
{
    if messages.len() > 0 {
        let front = messages.drop_last();
        lemma_log_is_tail(front);
        let log = appended_all(Seq::empty(), front);
        if front.len() < MAX_MSG_RETENTION {
            assert(log.push(messages.last()) =~= messages);
        } else {
            assert(log.drop_first().push(messages.last()) =~= messages.subrange(
                messages.len() - MAX_MSG_RETENTION,
                messages.len() as int,
            ));
        }
    }
}

/// Lemma: the order of display is determined by the log: there is only one.
pub proof fn lemma_display_order_is_unique(
    log: Seq<MessageEnvelope>,
    a: Seq<usize>,
    b: Seq<usize>,
)
    requires
        is_display_order(log, a),
        is_display_order(log, b),
    ensures
        a == b,
{
    assert forall|x: usize| a.contains(x) <==> b.contains(x) by {
        if a.contains(x) {
            let t = choose|t: int| 0 <= t < a.len() && a[t] == x;
            assert(a[t] < log.len());
        }
        if b.contains(x) {
            let t = choose|t: int| 0 <= t < b.len() && b[t] == x;
            assert(b[t] < log.len());
        }
        if x < log.len() {
            crate::order::lemma_permutation_hits(a, x);
            crate::order::lemma_permutation_hits(b, x);
        }
    }
    crate::order::lemma_sorted_lists_agree(
        |x: usize, y: usize| shown_above(log, x as int, y as int),
        a,
        b,
    );
}

} // verus!
