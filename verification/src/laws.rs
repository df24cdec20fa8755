//! What holds of the driver as a whole.
use crate::action::{each, Action, Probe};
use crate::bus::{cancel_actions, Bus, SETUP_DMA_BYTES};
use crate::control::setup_packet;
use crate::driver::{is_slot, lemma_only_slot, Driver};
use crate::endpoint::{
    fifo_writes, read_outcome, Dir, Endpoint, In, Out, ReadPoll,
};
use crate::fifo::{
    lemma_bytes_of_word, lemma_unpack_packed, packed, unpacked, word_count, word_of,
    ByteOrder,
};
use crate::interrupt::{
    completes, concerns_bus, delivers, interrupt_actions, lemma_pending, out_actions, pending,
    pending_in, pending_out, received_len, receives, rx_actions, rx_valid, SETUP_CACHE_BYTES,
};
use crate::registers::{Dcfg, Dctl, Doepint, EpStatus, Gintsts, Gotgint, RxStatus};
use crate::state::{State, EP_OUT_BUFFER_EMPTY};
use crate::table::{
    bit, fifo_empty_mask_of, lemma_bits_determine_mask, lemma_clear_bit, lemma_set_bit,
    lemma_total_words_monotonic, lemma_total_words_step, words_needed,
};
use crate::types::{Direction, EndpointAddress, EndpointType, MAX_ENDPOINTS};
use vstd::prelude::*;

verus! {

// Receiving
/// The packet that waits for OUT endpoint `i`, if there is one: each OUT endpoint is a box for one
/// packet.
pub open spec fn mailbox<const N: usize>(state: State<N>, memory: Seq<u8>, i: int) -> Option<
    Seq<u8>,
> {
    let ep = state.ep_states@[i];
    if ep.full() {
        Some(
            memory.subrange(
                ep.out_buffer.offset as int,
                ep.out_buffer.offset + ep.out_size,
            ),
        )
    } else {
        None
    }
}

/// Receiving a packet puts it into the box of its endpoint.
proof fn lemma_reception<const N: usize>(
    before: State<N>,
    after: State<N>,
    memory: Seq<u8>,
    memory_after: Seq<u8>,
    ep: int,
    len: int,
    words: Seq<u32>,
)
    requires
        before.wf(memory.len() as int),
        0 <= ep < N,
        0 <= len <= before.ep_states@[ep].out_buffer.len,
        len < EP_OUT_BUFFER_EMPTY,
        words.len() == word_count(len),
        receives(before, after, memory, memory_after, ep, len, words),
    ensures
        mailbox(after, memory_after, ep) == Some(unpacked(before.byte_order, words).take(len)),
{
    assert(before.ep_states@[ep].wf(memory.len() as int));
    let slot = before.ep_states@[ep].out_buffer;
    assert(memory_after.subrange(slot.offset as int, slot.offset + len) =~= unpacked(
        before.byte_order,
        words,
    ).take(len));
}

/// Receiving a packet puts it into the box of its endpoint, as the bytes of the words that were
/// popped from the receive FIFO, and changes no other box. The length that marks an empty buffer
/// is no packet length.
pub proof fn law_reception_fills_mailbox<const N: usize>(
    before: State<N>,
    after: State<N>,
    memory: Seq<u8>,
    memory_after: Seq<u8>,
    used: spec_fn(int) -> bool,
    ep: int,
    len: int,
    words: Seq<u32>,
    other: int,
)
    requires
        before.wf(memory.len() as int),
        before.slots_apart(used, memory.len() as int),
        0 <= ep < N,
        0 <= other < N,
        ep != other,
        used(ep),
        used(other),
        0 <= len <= before.ep_states@[ep].out_buffer.len,
        len < EP_OUT_BUFFER_EMPTY,
        words.len() == word_count(len),
        receives(before, after, memory, memory_after, ep, len, words),
    ensures
        mailbox(after, memory_after, ep) == Some(unpacked(before.byte_order, words).take(len)),
        mailbox(after, memory_after, other) == mailbox(before, memory, other),
{
    lemma_reception(before, after, memory, memory_after, ep, len, words);
    assert(before.ep_states@[ep].wf(memory.len() as int));
    assert(before.ep_states@[other].wf(memory.len() as int));
    let held = before.ep_states@[other];
    assert(after.ep_states@[other] == held);
    if held.full() {
        assert(memory_after.subrange(
            held.out_buffer.offset as int,
            held.out_buffer.offset + held.out_size,
        ) =~= memory.subrange(
            held.out_buffer.offset as int,
            held.out_buffer.offset + held.out_size,
        ));
    }
}

/// Reading hands out what is in the box of an endpoint, at the start of a buffer whose rest stays as
/// it was.
proof fn lemma_read<const N: usize>(
    ep: Endpoint<Out>,
    before: State<N>,
    after: State<N>,
    memory: Seq<u8>,
    buf: Seq<u8>,
    buf_after: Seq<u8>,
)
    requires
        before.ep_states@[ep.number()].wf(memory.len() as int),
        ep.number() < N,
        before.ep_states@[ep.number()].full(),
        before.ep_states@[ep.number()].out_size <= buf.len(),
        ep.takes(before, after, memory, buf, buf_after),
    ensures
        ({
            let len = before.ep_states@[ep.number()].out_size as int;
            &&& mailbox(before, memory, ep.number()) == Some(buf_after.take(len))
            &&& buf_after.skip(len) == buf.skip(len)
            &&& buf_after.len() == buf.len()
        }),
{
    let held = before.ep_states@[ep.number()];
    let len = held.out_size as int;
    assert(buf_after.take(len) =~= memory.subrange(
        held.out_buffer.offset as int,
        held.out_buffer.offset + len,
    ));
    assert(buf_after.skip(len) =~= buf.skip(len));
}

/// Reading empties the box of an endpoint and hands out what was in it, at the start of a buffer
/// whose rest stays as it was; no other box changes.
pub proof fn law_read_empties_mailbox<const N: usize>(
    ep: Endpoint<Out>,
    before: State<N>,
    after: State<N>,
    memory: Seq<u8>,
    buf: Seq<u8>,
    buf_after: Seq<u8>,
    other: int,
)
    requires
        before.wf(memory.len() as int),
        ep.number() < N,
        0 <= other < N,
        other != ep.number(),
        before.ep_states@[ep.number()].full(),
        before.ep_states@[ep.number()].out_size <= buf.len(),
        ep.takes(before, after, memory, buf, buf_after),
    ensures
        ({
            let len = before.ep_states@[ep.number()].out_size as int;
            &&& mailbox(before, memory, ep.number()) == Some(buf_after.take(len))
            &&& buf_after.skip(len) == buf.skip(len)
            &&& buf_after.len() == buf.len()
        }),
        mailbox(after, memory, ep.number()) is None,
        mailbox(after, memory, other) == mailbox(before, memory, other),
{
    assert(before.ep_states@[ep.number()].wf(memory.len() as int));
    lemma_read(ep, before, after, memory, buf, buf_after);
    assert(after.ep_states@[other] == before.ep_states@[other]);
}

/// A packet that came in while its endpoint's buffer was free is there for the next read, which
/// gives back the very bytes that the host put into the words.
pub proof fn law_packet_round_trip<const N: usize>(
    ep: Endpoint<Out>,
    free: State<N>,
    held: State<N>,
    read: State<N>,
    memory: Seq<u8>,
    memory_after: Seq<u8>,
    data: Seq<u8>,
    buf: Seq<u8>,
    buf_after: Seq<u8>,
)
    requires
        free.wf(memory.len() as int),
        ep.number() < N,
        data.len() <= free.ep_states@[ep.number()].out_buffer.len,
        data.len() < EP_OUT_BUFFER_EMPTY,
        data.len() <= buf.len(),
        receives(
            free,
            held,
            memory,
            memory_after,
            ep.number(),
            data.len() as int,
            packed(free.byte_order, data),
        ),
        ep.takes(held, read, memory_after, buf, buf_after),
    ensures
        read_outcome(held.ep_states@[ep.number()], true, buf.len() as int) == ReadPoll::Packet(
            data.len() as usize,
        ),
        buf_after.take(data.len() as int) == data,
{
    assert(free.ep_states@[ep.number()].wf(memory.len() as int));
    let words = packed(free.byte_order, data);
    lemma_unpack_packed(free.byte_order, data);
    lemma_reception(free, held, memory, memory_after, ep.number(), data.len() as int, words);
    lemma_read(ep, held, read, memory_after, buf, buf_after);
}

/// A packet that the DMA engine put into the buffer of an endpoint, and nowhere else, is in the
/// box of that endpoint once its length is known; no other box changes.
pub proof fn law_dma_reception_fills_mailbox<const N: usize>(
    before: State<N>,
    after: State<N>,
    memory: Seq<u8>,
    memory_after: Seq<u8>,
    used: spec_fn(int) -> bool,
    ep: int,
    xfrsiz: u32,
    other: int,
)
    requires
        before.wf(memory.len() as int),
        before.slots_apart(used, memory.len() as int),
        0 <= ep < N,
        0 <= other < N,
        ep != other,
        used(ep),
        used(other),
        before.ep_states@[ep].out_xfer_size < EP_OUT_BUFFER_EMPTY,
        memory_after.len() == memory.len(),
        forall|k: int|
            0 <= k < memory.len() && !(before.ep_states@[ep].out_buffer.offset <= k
                < before.ep_states@[ep].out_buffer.offset + before.ep_states@[ep].out_buffer.len)
                ==> memory_after[k] == #[trigger] memory[k],
        completes(before, after, ep, xfrsiz),
    ensures
        mailbox(after, memory_after, ep) == Some(
            memory_after.subrange(
                before.ep_states@[ep].out_buffer.offset as int,
                before.ep_states@[ep].out_buffer.offset + received_len(
                    before.ep_states@[ep].out_xfer_size,
                    xfrsiz,
                ),
            ),
        ),
        mailbox(after, memory_after, other) == mailbox(before, memory, other),
{
    assert(before.ep_states@[ep].wf(memory.len() as int));
    assert(before.ep_states@[other].wf(memory.len() as int));
    let held = before.ep_states@[other];
    assert(after.ep_states@[other] == held);
    if held.full() {
        assert(memory_after.subrange(
            held.out_buffer.offset as int,
            held.out_buffer.offset + held.out_size,
        ) =~= memory.subrange(
            held.out_buffer.offset as int,
            held.out_buffer.offset + held.out_size,
        ));
    }
}

/// Receiving and reading leave every endpoint's buffer where it is, so that no two of them come to
/// share a byte, and keep what is received within the buffers.
pub proof fn law_transfers_keep_buffers<const N: usize>(
    ep: Endpoint<Out>,
    before: State<N>,
    after: State<N>,
    memory: Seq<u8>,
    memory_after: Seq<u8>,
    len: int,
    words: Seq<u32>,
    buf: Seq<u8>,
    buf_after: Seq<u8>,
    xfrsiz: u32,
    used: spec_fn(int) -> bool,
)
    requires
        before.wf(memory.len() as int),
        before.slots_apart(used, memory.len() as int),
        ep.number() < N,
        ep.info.max_packet_size <= before.ep_states@[ep.number()].out_buffer.len,
        0 <= len <= before.ep_states@[ep.number()].out_buffer.len,
        len <= EP_OUT_BUFFER_EMPTY,
        ({
            ||| delivers(before, after, memory, memory_after, ep.number(), len, words)
            ||| completes(before, after, ep.number(), xfrsiz)
            ||| ep.takes(before, after, memory, buf, buf_after)
        }),
    ensures
        after.wf(memory.len() as int),
        after.slots_apart(used, memory.len() as int),
        forall|i: int|
            0 <= i < N ==> (#[trigger] after.ep_states@[i]).out_buffer
                == before.ep_states@[i].out_buffer,
{
    assert forall|i: int| 0 <= i < N implies (#[trigger] after.ep_states@[i]).wf(
        memory.len() as int,
    ) && after.ep_states@[i].out_buffer == before.ep_states@[i].out_buffer by {
        assert(before.ep_states@[i].wf(memory.len() as int));
    }
}

/// The first of a row of packets that is for endpoint `ep`; each packet is given by its endpoint,
/// its length and its words.
pub open spec fn first_packet(
    packets: Seq<(int, int, Seq<u32>)>,
    order: ByteOrder,
    ep: int,
) -> Option<Seq<u8>>
    decreases packets.len(),
{
    if packets.len() == 0 {
        None
    } else {
        match first_packet(packets.drop_last(), order, ep) {
            Some(data) => Some(data),
            None => {
                let (to, len, words) = packets.last();
                if to == ep {
                    Some(unpacked(order, words).take(len))
                } else {
                    None
                }
            },
        }
    }
}

/// Whether a row of packets has been dealt with, one after the other, on the way through these
/// states and contents of the packet memory.
pub open spec fn delivers_all<const N: usize>(
    states: Seq<State<N>>,
    memories: Seq<Seq<u8>>,
    packets: Seq<(int, int, Seq<u32>)>,
) -> bool {
    &&& states.len() == packets.len() + 1
    &&& memories.len() == packets.len() + 1
    &&& forall|k: int|
        #![trigger packets[k]]
        0 <= k < packets.len() ==> delivers(
            states[k],
            states[k + 1],
            memories[k],
            memories[k + 1],
            packets[k].0,
            packets[k].1,
            packets[k].2,
        )
}

/// Whether each packet of a row is for an endpoint in use and fits its buffer.
pub open spec fn packets_fit<const N: usize>(
    state: State<N>,
    used: spec_fn(int) -> bool,
    packets: Seq<(int, int, Seq<u32>)>,
) -> bool {
    forall|k: int|
        #![trigger packets[k]]
        0 <= k < packets.len() ==> {
            let (ep, len, words) = packets[k];
            &&& 0 <= ep < N
            &&& used(ep)
            &&& 0 <= len <= state.ep_states@[ep].out_buffer.len
            &&& len < EP_OUT_BUFFER_EMPTY
            &&& words.len() == word_count(len)
        }
}

/// However many packets come in before an endpoint is read: its box holds what it held before, or
/// else the first of the packets that were for it. Packets for other endpoints make no difference.
pub proof fn law_first_packet_is_kept<const N: usize>(
    states: Seq<State<N>>,
    memories: Seq<Seq<u8>>,
    packets: Seq<(int, int, Seq<u32>)>,
    used: spec_fn(int) -> bool,
    ep: int,
)
    requires
        delivers_all(states, memories, packets),
        states[0].wf(memories[0].len() as int),
        states[0].slots_apart(used, memories[0].len() as int),
        packets_fit(states[0], used, packets),
        0 <= ep < N,
        used(ep),
    ensures
        mailbox(states.last(), memories.last(), ep) == match mailbox(states[0], memories[0], ep) {
            Some(data) => Some(data),
            None => first_packet(packets, states[0].byte_order, ep),
        },
{
    lemma_first_packet_is_kept(states, memories, packets, used, ep);
}

/// The same, with what holds of the last state.
proof fn lemma_first_packet_is_kept<const N: usize>(
    states: Seq<State<N>>,
    memories: Seq<Seq<u8>>,
    packets: Seq<(int, int, Seq<u32>)>,
    used: spec_fn(int) -> bool,
    ep: int,
)
    requires
        delivers_all(states, memories, packets),
        states[0].wf(memories[0].len() as int),
        states[0].slots_apart(used, memories[0].len() as int),
        packets_fit(states[0], used, packets),
        0 <= ep < N,
        used(ep),
    ensures
        memories.last().len() == memories[0].len(),
        states.last().wf(memories[0].len() as int),
        states.last().slots_apart(used, memories[0].len() as int),
        states.last().byte_order == states[0].byte_order,
        forall|i: int|
            0 <= i < N ==> (#[trigger] states.last().ep_states@[i]).out_buffer
                == states[0].ep_states@[i].out_buffer,
        mailbox(states.last(), memories.last(), ep) == match mailbox(states[0], memories[0], ep) {
            Some(data) => Some(data),
            None => first_packet(packets, states[0].byte_order, ep),
        },
    decreases packets.len(),
{
    if packets.len() > 0 {
        let n = packets.len() - 1;
        let fewer = packets.drop_last();
        assert forall|k: int| #![trigger fewer[k]] 0 <= k < fewer.len() implies fewer[k]
            == packets[k] by {}
        assert(delivers_all(states.drop_last(), memories.drop_last(), fewer));
        assert(packets_fit(states[0], used, fewer));
        lemma_first_packet_is_kept(states.drop_last(), memories.drop_last(), fewer, used, ep);
        let before = states[n];
        let after = states[n + 1];
        let memory = memories[n];
        let memory_after = memories[n + 1];
        let (to, len, words) = packets[n];
        assert(before == states.drop_last().last());
        assert(memory == memories.drop_last().last());
        assert(before.ep_states@[to].out_buffer == states[0].ep_states@[to].out_buffer);
        assert(before.ep_states@[ep].out_buffer == states[0].ep_states@[ep].out_buffer);
        assert forall|i: int| 0 <= i < N implies (#[trigger] after.ep_states@[i]).wf(
            memory.len() as int,
        ) && after.ep_states@[i].out_buffer == states[0].ep_states@[i].out_buffer by {
            assert(before.ep_states@[i].wf(memory.len() as int));
            assert(before.ep_states@[i].out_buffer == states[0].ep_states@[i].out_buffer);
        }
        if !before.ep_states@[to].full() {
            if to != ep {
                law_reception_fills_mailbox(
                    before,
                    after,
                    memory,
                    memory_after,
                    used,
                    to,
                    len,
                    words,
                    ep,
                );
            } else {
                lemma_reception(before, after, memory, memory_after, ep, len, words);
            }
        }
    }
}

/// What the DMA engine received is the size of the transfer less what is left of it, and never
/// more than the transfer.
pub proof fn law_dma_length(xfer_size: u16, remaining: u32)
    ensures
        remaining <= xfer_size ==> received_len(xfer_size, remaining) + remaining == xfer_size,
        received_len(xfer_size, remaining) <= xfer_size,
{
}

/// A SETUP stage's own completion is not taken for data.
pub proof fn law_setup_is_no_data(ep: usize, ints: Doepint, dma_enabled: bool, setup_buf: usize)
    requires
        ints.stup,
    ensures
        !out_actions(ep, ints, dma_enabled, setup_buf).contains(
            Action::Probe(Probe::Remaining(ep)),
        ),
{
}

/// For every entry of the receive queue that carries data, as many words are popped from the
/// receive FIFO as the data has, whether the packet is kept or not: two for a SETUP packet, and
/// those that the probe asks for otherwise.
pub proof fn law_receive_fifo_stays_in_step(status: RxStatus, ep_count: int)
    requires
        rx_valid(status, ep_count),
    ensures
        status.pktstsd is SetupDataRx ==> word_count(status.bcnt as int) == 2 && rx_actions(
            status,
        ).last() == Action::Probe(Probe::SetupWords),
        status.pktstsd is OutDataRx ==> rx_actions(status) == seq![
            Action::Probe(Probe::OutWords { ep: status.epnum as usize, len: status.bcnt as usize }),
        ],
{
}

/// The SETUP buffer is read after the cache has been invalidated for all of it.
pub proof fn law_setup_buffer_is_read_behind_the_cache(
    ep: usize,
    ints: Doepint,
    dma_enabled: bool,
    setup_buf: usize,
    i: int,
)
    requires
        0 <= i < out_actions(ep, ints, dma_enabled, setup_buf).len(),
        out_actions(ep, ints, dma_enabled, setup_buf)[i] == Action::Probe(Probe::SetupBuffer),
    ensures
        i > 0,
        out_actions(ep, ints, dma_enabled, setup_buf)[i - 1] == (Action::InvalidateCache {
            addr: setup_buf,
            len: SETUP_CACHE_BYTES,
        }),
        SETUP_DMA_BYTES <= SETUP_CACHE_BYTES,
{
}

/// The control pipe hands out a SETUP packet as the host sent it, where its words were popped from
/// the receive FIFO.
pub proof fn law_setup_from_fifo<const N: usize>(state: State<N>, packet: Seq<u8>)
    requires
        packet.len() == 8,
        state.cp_state.setup_data@ == packed(state.byte_order, packet),
    ensures
        setup_packet(state) == packet,
{
    let order = state.byte_order;
    lemma_bytes_of_word(order, seq![packet[0], packet[1], packet[2], packet[3]]);
    lemma_bytes_of_word(order, seq![packet[4], packet[5], packet[6], packet[7]]);
    assert(setup_packet(state) =~= packet);
}

/// The control pipe hands out a SETUP packet as the DMA engine put it into its buffer, on a
/// machine that keeps the least significant byte first.
pub proof fn law_setup_from_dma<const N: usize>(state: State<N>, packet: Seq<u8>)
    requires
        packet.len() == 8,
        state.byte_order is Little,
        state.cp_state.setup_data@ == seq![
            word_of(ByteOrder::Little, packet.subrange(0, 4)),
            word_of(ByteOrder::Little, packet.subrange(4, 8)),
        ],
    ensures
        setup_packet(state) == packet,
{
    lemma_bytes_of_word(ByteOrder::Little, packet.subrange(0, 4));
    lemma_bytes_of_word(ByteOrder::Little, packet.subrange(4, 8));
    assert(setup_packet(state) =~= packet);
}

// Sending
/// The words that are put into the FIFO for a packet hold its bytes in order, and zeros behind
/// them.
pub proof fn law_fifo_holds_packet(order: ByteOrder, index: usize, data: Seq<u8>)
    ensures
        fifo_writes(index, packed(order, data)).len() == word_count(data.len() as int),
        unpacked(order, packed(order, data)).take(data.len() as int) == data,
        forall|i: int|
            data.len() <= i < 4 * word_count(data.len() as int) ==> #[trigger] unpacked(
                order,
                packed(order, data),
            )[i] == 0,
{
    lemma_unpack_packed(order, data);
}

/// A packet that is not larger than its endpoint allows fits the endpoint's FIFO once that is
/// empty.
pub proof fn law_packet_fits_fifo(len: int, max_packet_size: u16)
    requires
        0 <= len <= max_packet_size,
    ensures
        word_count(len) <= words_needed(Direction::In, max_packet_size),
{
}

/// A packet is cleaned from the cache, all of it, before the DMA engine is pointed to it.
pub proof fn law_packet_is_cleaned_before_dma(ep: Endpoint<In>, len: int, buf_addr: usize, i: int)
    requires
        0 < len <= usize::MAX,
        0 <= i < ep.transfer_dma_actions(len, buf_addr).len(),
        ep.transfer_dma_actions(len, buf_addr)[i] is WriteDiepdma
            || ep.transfer_dma_actions(len, buf_addr)[i] is ModifyDiepctl,
    ensures
        i > 0,
        ep.transfer_dma_actions(len, buf_addr)[0] == (Action::CleanCache {
            addr: buf_addr,
            len: len as usize,
        }),
{
}

/// A FIFO-empty interrupt that was enabled for an endpoint and has come leaves the mask as it was
/// before.
pub proof fn law_fifo_empty_mask_undone(ineptxfem: u16, ep: int)
    requires
        0 <= ep < 16,
        !bit(ineptxfem, ep),
    ensures
        fifo_empty_mask_of(fifo_empty_mask_of(ineptxfem, ep, true), ep, false) == ineptxfem,
{
    let set = fifo_empty_mask_of(ineptxfem, ep, true);
    lemma_set_bit(ineptxfem, ep as u16);
    lemma_clear_bit(set, ep as u16);
    let back = fifo_empty_mask_of(set, ep, false);
    assert forall|i: int| 0 <= i < 16 implies #[trigger] bit(back, i) == bit(ineptxfem, i) by {
        assert(bit(set, i) == (bit(ineptxfem, i) || i == ep));
    }
    lemma_bits_determine_mask(back, ineptxfem);
}

// Allocation
/// Two endpoints of one direction never have the same number.
pub proof fn law_endpoints_are_distinct<D: Dir, const N: usize>(
    d0: Driver<N>,
    s0: State<N>,
    d1: Driver<N>,
    s1: State<N>,
    d2: Driver<N>,
    s2: State<N>,
    type1: EndpointType,
    addr1: Option<EndpointAddress>,
    mps1: u16,
    interval1: u8,
    i: int,
    ep1: Endpoint<D>,
    type2: EndpointType,
    addr2: Option<EndpointAddress>,
    mps2: u16,
    interval2: u8,
    j: int,
    ep2: Endpoint<D>,
)
    requires
        d0.wf(s0),
        d0.allocates::<D>(s0, d1, s1, type1, addr1, mps1, interval1, i, ep1),
        d1.allocates::<D>(s1, d2, s2, type2, addr2, mps2, interval2, j, ep2),
    ensures
        i != j,
{
}

/// A new endpoint's address tells its slot and its direction.
pub proof fn law_address_tells_slot<D: Dir, const N: usize>(
    d0: Driver<N>,
    s0: State<N>,
    d1: Driver<N>,
    s1: State<N>,
    ep_type: EndpointType,
    addr: Option<EndpointAddress>,
    mps: u16,
    interval: u8,
    i: int,
    ep: Endpoint<D>,
)
    requires
        d0.wf(s0),
        d0.allocates::<D>(s0, d1, s1, ep_type, addr, mps, interval, i, ep),
    ensures
        ep.number() == i,
        ep.info.addr.heading() == D::direction(),
{
    EndpointAddress::law_parts(i, D::direction());
}

/// Endpoint 0 belongs to the control pipe.
pub proof fn law_endpoint_0_is_control<D: Dir, const N: usize>(
    d0: Driver<N>,
    s0: State<N>,
    d1: Driver<N>,
    s1: State<N>,
    ep_type: EndpointType,
    addr: Option<EndpointAddress>,
    mps: u16,
    interval: u8,
    i: int,
    ep: Endpoint<D>,
)
    requires
        d0.allocates::<D>(s0, d1, s1, ep_type, addr, mps, interval, i, ep),
        ep_type !is Control,
    ensures
        i > 0,
{
}

/// The slot of a new endpoint is determined by what was asked for.
pub proof fn law_slot_is_determined<const N: usize>(
    driver: Driver<N>,
    dir: Direction,
    ep_type: EndpointType,
    addr: Option<EndpointAddress>,
    i: int,
    j: int,
)
    requires
        is_slot(
            driver.table(dir),
            driver.instance.endpoint_count as int,
            ep_type,
            addr,
            i,
        ),
        is_slot(
            driver.table(dir),
            driver.instance.endpoint_count as int,
            ep_type,
            addr,
            j,
        ),
    ensures
        i == j,
{
    lemma_only_slot(
        driver.table(dir),
        driver.instance.endpoint_count as int,
        ep_type,
        addr,
        i,
    );
}

/// The transmit FIFO of an endpoint lies behind the receive FIFO and within the depth of the
/// hardware, and has the 16 words that the hardware asks for at least.
pub proof fn law_tx_fifo_fits<const N: usize>(bus: Bus<N>, i: int)
    requires
        bus.wf(),
        0 <= i < bus.instance.endpoint_count,
        bus.ep_in@[i] is Some,
    ensures
        bus.rx_words() <= bus.tx_start(i),
        bus.tx_start(i) + bus.ep_in@[i]->0.fifo_size_words <= bus.instance.fifo_depth_words,
        bus.ep_in@[i]->0.fifo_size_words >= 16,
{
    lemma_total_words_monotonic(bus.ep_in@, i);
    lemma_total_words_monotonic(bus.ep_in@, i + 1);
    lemma_total_words_step(bus.ep_in@, i);
}

/// No two transmit FIFOs overlap.
pub proof fn law_tx_fifos_apart<const N: usize>(bus: Bus<N>, i: int, j: int)
    requires
        bus.wf(),
        0 <= i < j < bus.instance.endpoint_count,
        bus.ep_in@[i] is Some,
        bus.ep_in@[j] is Some,
    ensures
        bus.tx_start(i) + bus.ep_in@[i]->0.fifo_size_words <= bus.tx_start(j),
{
    lemma_total_words_step(bus.ep_in@, i);
    lemma_total_words_monotonic(bus.ep_in@.take(j), i + 1);
    assert(bus.ep_in@.take(j).take(i + 1) =~= bus.ep_in@.take(i + 1));
}

// Bus events
/// The interrupt handler and the bus agree on whether the receive queue raises interrupts, and
/// exactly where it does, the handler drains it.
pub proof fn law_rx_interrupt_agrees<const N: usize>(bus: Bus<N>, state: State<N>, ints: Gintsts)
    requires
        state.dma_enabled == bus.dma(),
    ensures
        ({
            let actions = interrupt_actions(ints, bus.instance.features, state.dma_enabled);
            &&& bus.bus_irqs().rxflvlm <==> actions.contains(Action::Probe(Probe::RxLevel))
            &&& concerns_bus(ints) ==> {
                &&& actions[0] is WriteGintmsk
                &&& actions[0]->WriteGintmsk_0.rxflvlm == bus.bus_irqs().rxflvlm
                &&& actions[0]->WriteGintmsk_0.iepint && actions[0]->WriteGintmsk_0.oepint
                &&& actions[1] is WakeBus
            }
        }),
{
    let actions = interrupt_actions(ints, bus.instance.features, state.dma_enabled);
    if bus.bus_irqs().rxflvlm {
        let k: int = if concerns_bus(ints) {
            2
        } else {
            0
        };
        assert(actions[k] == Action::Probe(Probe::RxLevel));
    }
}

/// A part of a list is contained in it.
proof fn lemma_part_contained(a: Seq<Action>, b: Seq<Action>, c: Seq<Action>, x: Action)
    requires
        b.contains(x),
    ensures
        (a + b + c).contains(x),
{
    let k = choose|k: int| 0 <= k < b.len() && b[k] == x;
    assert((a + b + c)[a.len() + k] == x);
}

/// Whatever interrupt made the handler mask those of the bus, the bus unmasks them again.
pub proof fn law_bus_irqs_are_restored<const N: usize>(
    bus: Bus<N>,
    ints: Gintsts,
    setup_addr: u32,
    otgints: Gotgint,
)
    ensures
        bus.otg_actions(otgints).contains(Action::WriteGintmsk(bus.bus_irqs())),
        concerns_bus(ints) && !ints.otgint ==> (bus.session_actions(ints) + bus.late_actions(
            ints,
            setup_addr,
        )).contains(Action::WriteGintmsk(bus.bus_irqs())),
        ints.srqint ==> bus.session_actions(ints).contains(Action::WriteGintmsk(bus.bus_irqs())),
{
    let mask = Action::WriteGintmsk(bus.bus_irqs());
    let none = Seq::<Action>::empty();
    assert(bus.otg_actions(otgints)[1] == mask);
    let session = bus.session_actions(ints);
    let late = bus.late_actions(ints, setup_addr);
    if ints.srqint {
        assert(session[1] == mask);
        lemma_part_contained(none, session, late, mask);
        assert(none + session + late =~= session + late);
    } else if concerns_bus(ints) && !ints.otgint {
        if ints.enumdne || ints.usbsusp || ints.wkupint {
            assert(late[late.len() - 1] == mask);
        } else {
            assert(ints.usbrst);
            let reset = bus.reset_actions(setup_addr);
            assert(reset[reset.len() - 1] == mask);
            assert(late =~= reset);
        }
        lemma_part_contained(session, late, none, mask);
        assert(session + late + none =~= session + late);
    }
}

/// What is done for each of `n` is done for any one of them.
pub proof fn lemma_each_contains(n: int, f: spec_fn(int) -> Seq<Action>, i: int, x: Action)
    requires
        0 <= i < n,
        f(i).contains(x),
    ensures
        each(n, f).contains(x),
    decreases n,
{
    let none = Seq::<Action>::empty();
    let before = each(n - 1, f);
    if i == n - 1 {
        lemma_part_contained(before, f(i), none, x);
        assert(before + f(i) + none =~= each(n, f));
    } else {
        lemma_each_contains(n - 1, f, i, x);
        lemma_part_contained(none, before, f(n - 1), x);
        assert(none + before + f(n - 1) =~= each(n, f));
    }
}

/// A bus reset aborts what is being sent on every endpoint, wakes every endpoint, and takes the
/// device back to address 0.
pub proof fn law_reset_reaches_every_endpoint<const N: usize>(
    bus: Bus<N>,
    setup_addr: u32,
    i: usize,
)
    requires
        i < bus.instance.endpoint_count,
    ensures
        bus.reset_actions(setup_addr).contains(Action::Probe(Probe::AbortIn(i))),
        bus.reset_actions(setup_addr).contains(Action::WakeIn(i)),
        bus.reset_actions(setup_addr).contains(Action::WakeOut(i)),
        bus.reset_actions(setup_addr).contains(
            Action::ModifyDcfg(
                Dcfg { dad: Some(0), ..Dcfg::none() },
            ),
        ),
{
    let count = bus.instance.endpoint_count as int;
    let none = Seq::<Action>::empty();
    let fabort = |i: int| Bus::<N>::abort_endpoint(i);
    let fwake = |i: int| Bus::<N>::wake_endpoint(i);
    let aborts = bus.abort_all_actions();
    let wakes = bus.wake_all_actions();
    let all = bus.reset_actions(setup_addr);
    let rest = all.skip((aborts.len() + wakes.len()) as int);
    assert(all =~= aborts + wakes + rest);
    assert(fabort(i as int)[0] == Action::Probe(Probe::AbortIn(i)));
    lemma_each_contains(count, fabort, i as int, Action::Probe(Probe::AbortIn(i)));
    lemma_part_contained(none, aborts, wakes + rest, Action::Probe(Probe::AbortIn(i)));
    assert(none + aborts + (wakes + rest) =~= all);
    assert(fwake(i as int)[0] == Action::WakeIn(i));
    assert(fwake(i as int)[1] == Action::WakeOut(i));
    lemma_each_contains(count, fwake, i as int, Action::WakeIn(i));
    lemma_each_contains(count, fwake, i as int, Action::WakeOut(i));
    lemma_part_contained(aborts, wakes, rest, Action::WakeIn(i));
    lemma_part_contained(aborts, wakes, rest, Action::WakeOut(i));
    assert(all[all.len() - 4] == Action::ModifyDcfg(
        Dcfg { dad: Some(0), ..Dcfg::none() },
    ));
}

/// Each endpoint that has an interrupt pending is served once, and no other is served.
pub proof fn law_pending_endpoints_are_served_once(mask: u16, ep: usize)
    ensures
        pending_in(mask).contains(Action::Probe(Probe::InFlags(ep))) <==> bit(mask, ep as int),
        pending_in(mask).no_duplicates(),
        pending_out(mask).contains(Action::Probe(Probe::OutFlags(ep))) <==> bit(mask, ep as int),
        pending_out(mask).no_duplicates(),
{
    lemma_pending(mask, 0);
    let list = pending(mask, 0);
    let ins = pending_in(mask);
    let outs = pending_out(mask);
    if bit(mask, ep as int) {
        assert(list.contains(ep as int as usize));
        let k = choose|k: int| 0 <= k < list.len() && list[k] == ep;
        assert(ins[k] == Action::Probe(Probe::InFlags(ep)));
        assert(outs[k] == Action::Probe(Probe::OutFlags(ep)));
    }
    if ins.contains(Action::Probe(Probe::InFlags(ep))) {
        let k = choose|k: int| 0 <= k < ins.len() && ins[k] == Action::Probe(Probe::InFlags(ep));
        assert(list[k] == ep);
    }
    if outs.contains(Action::Probe(Probe::OutFlags(ep))) {
        let k = choose|k: int| 0 <= k < outs.len() && outs[k] == Action::Probe(Probe::OutFlags(ep));
        assert(list[k] == ep);
    }
    assert forall|k: int, l: int| 0 <= k < ins.len() && 0 <= l < ins.len() && k != l implies ins[k]
        != ins[l] by {
        assert(list[k] != list[l]);
    }
    assert forall|k: int, l: int|
        0 <= k < outs.len() && 0 <= l < outs.len() && k != l implies outs[k] != outs[l] by {
        assert(list[k] != list[l]);
    }
}

/// The device is off the bus while the core is initialized: it disconnects before anything but
/// the core's reset, and connects last.
pub proof fn law_init_connects_last<const N: usize>(bus: Bus<N>)
    ensures
        ({
            let actions = bus.init_actions();
            let reset = bus.core_reset_actions().len() as int;
            &&& actions[reset] == Action::WriteDctl(Dctl { sdis: Some(true), ..Dctl::none() })
            &&& actions.last() == Action::WriteDctl(Dctl { sdis: Some(false), ..Dctl::none() })
            &&& forall|k: int|
                reset < k < actions.len() - 1 ==> (#[trigger] actions[k]) !is WriteDctl
        }),
{
}

/// What the driver reads of the control register of an endpoint after one action.
///
/// Where the action is a probe, the accesses that follow from it are not counted here.
pub open spec fn control_step(
    dir: Direction,
    i: usize,
    before: EpStatus,
    action: Action,
) -> EpStatus {
    let zero = EpStatus { usbaep: false, epena: false, stall: false };
    match action {
        Action::ModifyDiepctl(j, control) => if dir is In && i == j {
            control.updated(before)
        } else {
            before
        },
        Action::WriteDiepctl(j, control) => if dir is In && i == j {
            control.updated(zero)
        } else {
            before
        },
        Action::ModifyDoepctl(j, control) => if dir is Out && i == j {
            control.updated(before)
        } else {
            before
        },
        Action::WriteDoepctl(j, control) => if dir is Out && i == j {
            control.updated(zero)
        } else {
            before
        },
        _ => before,
    }
}

/// What the driver reads of the control register of an endpoint after the first `n` actions.
pub open spec fn control_after(
    dir: Direction,
    i: usize,
    before: EpStatus,
    actions: Seq<Action>,
    n: int,
) -> EpStatus
    decreases n,
{
    if n <= 0 {
        before
    } else {
        control_step(dir, i, control_after(dir, i, before, actions, n - 1), actions[n - 1])
    }
}

/// Two lists of actions, one after the other.
proof fn lemma_control_after_concat(
    dir: Direction,
    i: usize,
    before: EpStatus,
    a: Seq<Action>,
    b: Seq<Action>,
    k: int,
)
    requires
        0 <= k <= b.len(),
    ensures
        control_after(dir, i, before, a + b, a.len() + k) == control_after(
            dir,
            i,
            control_after(dir, i, before, a, a.len() as int),
            b,
            k,
        ),
    decreases k,
{
    if k > 0 {
        lemma_control_after_concat(dir, i, before, a, b, k - 1);
        assert((a + b)[a.len() + k - 1] == b[k - 1]);
    } else {
        lemma_control_after_prefix(dir, i, before, a, b, a.len() as int);
    }
}

/// What follows a list of actions does not change what went before.
proof fn lemma_control_after_prefix(
    dir: Direction,
    i: usize,
    before: EpStatus,
    a: Seq<Action>,
    b: Seq<Action>,
    n: int,
)
    requires
        0 <= n <= a.len(),
    ensures
        control_after(dir, i, before, a + b, n) == control_after(dir, i, before, a, n),
    decreases n,
{
    if n > 0 {
        lemma_control_after_prefix(dir, i, before, a, b, n - 1);
        assert((a + b)[n - 1] == a[n - 1]);
    }
}

/// Setting or clearing the STALL condition of an endpoint is what is seen of it afterwards, and
/// changes nothing of any other endpoint.
pub proof fn law_stall_is_seen<const N: usize>(
    addr: EndpointAddress,
    stalled: bool,
    dir: Direction,
    i: usize,
    before: EpStatus,
)
    ensures
        ({
            let actions = Bus::<N>::set_stalled_actions(addr, stalled);
            let after = control_after(dir, i, before, actions, actions.len() as int);
            after == if dir == addr.heading() && i == addr.number() {
                EpStatus { stall: stalled, ..before }
            } else {
                before
            }
        }),
{
    reveal_with_fuel(control_after, 5);
}

/// Enabling or disabling an endpoint is what is seen of it afterwards, and changes nothing of any
/// other endpoint.
pub proof fn law_enable_is_seen<const N: usize>(
    addr: EndpointAddress,
    enabled: bool,
    dir: Direction,
    i: usize,
    before: EpStatus,
)
    ensures
        ({
            let actions = Bus::<N>::set_enabled_actions(addr, enabled);
            let after = control_after(dir, i, before, actions, actions.len() as int);
            after == if dir == addr.heading() && i == addr.number() {
                EpStatus { usbaep: enabled, ..before }
            } else {
                before
            }
        }),
{
    reveal_with_fuel(control_after, 8);
}

/// Cancelling a transfer neither enables nor disables an endpoint, nor does it stall one.
pub proof fn law_cancel_keeps_endpoint(
    cancelled: Direction,
    index: usize,
    active: bool,
    dir: Direction,
    i: usize,
    before: EpStatus,
)
    ensures
        ({
            let actions = cancel_actions(cancelled, index, active);
            control_after(dir, i, before, actions, actions.len() as int) == before
        }),
{
    reveal_with_fuel(control_after, 2);
}

/// When power is removed, no endpoint is left enabled.
pub proof fn law_disable_all_disables<const N: usize>(
    bus: Bus<N>,
    dir: Direction,
    i: usize,
    before: EpStatus,
)
    requires
        bus.wf(),
        i < bus.instance.endpoint_count,
    ensures
        !control_after(
            dir,
            i,
            before,
            bus.disable_all_actions(),
            bus.disable_all_actions().len() as int,
        ).usbaep,
{
    lemma_disabled::<N>(bus.instance.endpoint_count as int, dir, i, before);
}

/// Disabling both endpoints of number `n` leaves neither enabled, and enables no other.
proof fn lemma_disabled_one<const N: usize>(n: int, dir: Direction, i: usize, before: EpStatus)
    requires
        0 <= n < MAX_ENDPOINTS,
    ensures
        ({
            let actions = Bus::<N>::disable_actions(n);
            let after = control_after(dir, i, before, actions, actions.len() as int);
            after.usbaep ==> i != n && before.usbaep
        }),
{
    let addr_in = EndpointAddress::of(n, Direction::In);
    let addr_out = EndpointAddress::of(n, Direction::Out);
    let a = Bus::<N>::set_enabled_actions(addr_in, false);
    let b = Bus::<N>::set_enabled_actions(addr_out, false);
    law_enable_is_seen::<N>(addr_in, false, dir, i, before);
    let next = control_after(dir, i, before, a, a.len() as int);
    law_enable_is_seen::<N>(addr_out, false, dir, i, next);
    lemma_control_after_concat(dir, i, before, a, b, b.len() as int);
    EndpointAddress::law_parts(n, Direction::In);
    EndpointAddress::law_parts(n, Direction::Out);
}

/// Endpoints below `n` have been disabled once the first `n` were asked to be.
proof fn lemma_disabled<const N: usize>(n: int, dir: Direction, i: usize, before: EpStatus)
    requires
        0 <= n <= MAX_ENDPOINTS,
    ensures
        ({
            let actions = each(n, |i: int| Bus::<N>::disable_actions(i));
            let after = control_after(dir, i, before, actions, actions.len() as int);
            after.usbaep ==> i >= n && before.usbaep
        }),
    decreases n,
{
    if n > 0 {
        let f = |i: int| Bus::<N>::disable_actions(i);
        let head = each(n - 1, f);
        let mid = control_after(dir, i, before, head, head.len() as int);
        let step = Bus::<N>::disable_actions(n - 1);
        lemma_disabled::<N>(n - 1, dir, i, before);
        lemma_disabled_one::<N>(n - 1, dir, i, mid);
        lemma_control_after_concat(dir, i, before, head, step, step.len() as int);
        assert(each(n, f) == head + step);
    }
}

} // verus!
