//! The interrupt handler.
//!
//! [`on_interrupt`] decides what there is to do; the functions behind its probes do it as the
//! hardware delivers what they need.
use crate::action::{Action, Probe};
use crate::bus::{arm_setup, arm_setup_actions};
use crate::config::Features;
use crate::fifo::{unpacked, word_count, word_from_bytes, word_of, word_to_bytes, ByteOrder};
use crate::registers::{
    Diepint, Doepint, Gintmsk, Gintsts, Grstctl, Pktstsd, RxStatus,
};
use crate::state::{ControlPipeSetupState, EpState, State, EP_OUT_BUFFER_EMPTY};
use crate::table::bit;
use vstd::prelude::*;

verus! {

/// Bytes of the two cache lines that cover the SETUP DMA buffer.
pub const SETUP_CACHE_BYTES: usize = 64;

/// Whether one of the interrupts is pending that the bus deals with.
pub open spec fn concerns_bus(ints: Gintsts) -> bool {
    ints.wkupint || ints.usbsusp || ints.usbrst || ints.enumdne || ints.otgint || ints.srqint
}

/// The probe, where `when` holds.
pub open spec fn probe_if(when: bool, probe: Probe) -> Seq<Action> {
    if when {
        seq![Action::Probe(probe)]
    } else {
        Seq::empty()
    }
}

/// What the interrupt handler does about the pending core interrupts: it masks those of the bus
/// and wakes the bus, drains the receive queue unless the DMA engine does, then serves the IN and
/// the OUT endpoints.
pub open spec fn interrupt_actions(ints: Gintsts, features: Features, dma_enabled: bool) -> Seq<
    Action,
> {
    (if concerns_bus(ints) {
        seq![
            Action::WriteGintmsk(
                Gintmsk {
                    iepint: true,
                    oepint: true,
                    rxflvlm: !(features.dma && dma_enabled),
                    ..Gintmsk::none()
                },
            ),
            Action::WakeBus,
        ]
    } else {
        Seq::empty()
    }) + probe_if(!(features.dma && dma_enabled), Probe::RxLevel) + probe_if(
        ints.iepint,
        Probe::InMask,
    ) + probe_if(ints.oepint, Probe::OutMask)
}

/// Handles interrupts.
pub fn on_interrupt<const MAX_EP_COUNT: usize>(
    ints: Gintsts,
    features: Features,
    state: &State<MAX_EP_COUNT>,
) -> (r: Vec<Action>)
    ensures
        r@ == interrupt_actions(ints, features, state.dma_enabled),
{
    let mut actions: Vec<Action> = Vec::new();
    let dma_enabled = features.dma && state.dma_enabled;
    if ints.wkupint || ints.usbsusp || ints.usbrst || ints.enumdne || ints.otgint || ints.srqint {
        // mask interrupts and notify the bus to process them
        actions.push(
            Action::WriteGintmsk(
                Gintmsk {
                    iepint: true,
                    oepint: true,
                    rxflvlm: !dma_enabled,
                    ..Gintmsk::none()
                },
            ),
        );
        actions.push(Action::WakeBus);
    }
    if !dma_enabled {
        // the receive FIFO is the processor's to drain in FIFO mode only
        actions.push(Action::Probe(Probe::RxLevel));
    }
    if ints.iepint {
        actions.push(Action::Probe(Probe::InMask));
    }
    if ints.oepint {
        actions.push(Action::Probe(Probe::OutMask));
    }
    proof {
        assert(actions@ == interrupt_actions(ints, features, state.dma_enabled));
    }
    actions
}

/// What a receive queue calls for: its next entry, and then another look, unless it is empty.
pub open spec fn rx_level_actions(rxflvl: bool) -> Seq<Action> {
    if rxflvl {
        seq![Action::Probe(Probe::RxStatus), Action::Probe(Probe::RxLevel)]
    } else {
        Seq::empty()
    }
}

/// Takes entries from the receive queue until it is empty.
pub fn rx_level(rxflvl: bool) -> (r: Vec<Action>)
    ensures
        r@ == rx_level_actions(rxflvl),
{
    if rxflvl {
        vec![Action::Probe(Probe::RxStatus), Action::Probe(Probe::RxLevel)]
    } else {
        Vec::new()
    }
}

/// Whether an entry of the receive queue is one that the hardware may deliver: its endpoint is in
/// use, and a SETUP packet has eight bytes and is for endpoint 0.
pub open spec fn rx_valid(status: RxStatus, ep_count: int) -> bool {
    &&& status.epnum < ep_count
    &&& status.pktstsd is SetupDataRx ==> status.bcnt == 8 && status.epnum == 0
}

/// Tests whether an entry of the receive queue is one that the hardware may deliver.
pub fn is_rx_valid(status: RxStatus, ep_count: usize) -> (r: bool)
    ensures
        r == rx_valid(status, ep_count as int),
{
    if (status.epnum as usize) >= ep_count {
        return false;
    }
    match status.pktstsd {
        Pktstsd::SetupDataRx => status.bcnt == 8 && status.epnum == 0,
        _ => true,
    }
}

/// What an entry of the receive queue calls for.
pub open spec fn rx_actions(status: RxStatus) -> Seq<Action> {
    match status.pktstsd {
        Pktstsd::SetupDataRx => seq![
            Action::Probe(Probe::TxPending(status.epnum as usize)),
            Action::Probe(Probe::SetupWords),
        ],
        Pktstsd::OutDataRx => seq![
            Action::Probe(
                Probe::OutWords { ep: status.epnum as usize, len: status.bcnt as usize },
            ),
        ],
        _ => Seq::empty(),
    }
}

/// Whether an entry of the receive queue has been noted: on the AR8030, the end of a SETUP stage
/// makes its packet ready, and nothing else changes.
pub open spec fn notes_rx<const N: usize>(
    before: State<N>,
    after: State<N>,
    features: Features,
    status: RxStatus,
) -> bool {
    &&& after.same_but_setup(before)
    &&& after.cp_state == ControlPipeSetupState {
        setup_ready: before.cp_state.setup_ready || (status.pktstsd is SetupDataDone
            && features.ar8030),
        ..before.cp_state
    }
}

/// Handles an entry of the receive queue.
///
/// On the AR8030 the end of a SETUP stage is signalled here.
pub fn rx_status<const MAX_EP_COUNT: usize>(
    state: &mut State<MAX_EP_COUNT>,
    features: Features,
    status: RxStatus,
    ep_count: usize,
) -> (r: Vec<Action>)
    requires
        rx_valid(status, ep_count as int),
    ensures
        r@ == rx_actions(status),
        notes_rx(*old(state), *final(state), features, status),
{
    match status.pktstsd {
        Pktstsd::SetupDataRx => vec![
            // the transmit FIFO is flushed if something is stuck in the control endpoint
            Action::Probe(Probe::TxPending(status.epnum as usize)),
            Action::Probe(Probe::SetupWords),
        ],
        Pktstsd::OutDataRx => vec![
            Action::Probe(
                Probe::OutWords { ep: status.epnum as usize, len: status.bcnt as usize },
            ),
        ],
        Pktstsd::SetupDataDone => {
            if features.ar8030 {
                state.cp_state.setup_ready = true;
            }
            Vec::new()
        },
        _ => Vec::new(),
    }
}

/// The actions that flush the transmit FIFO of an endpoint that has `pktcnt` packets to send.
pub open spec fn tx_pending_actions(ep: usize, pktcnt: u16) -> Seq<Action> {
    if pktcnt != 0 {
        seq![
            Action::ModifyGrstctl(
                Grstctl { txfnum: Some(ep as u8), txfflsh: Some(true), ..Grstctl::none() },
            ),
            Action::WaitTxFlush,
        ]
    } else {
        Seq::empty()
    }
}

/// Flushes the transmit FIFO of an endpoint that still has packets to send.
pub fn tx_pending(ep: usize, pktcnt: u16) -> (r: Vec<Action>)
    ensures
        r@ == tx_pending_actions(ep, pktcnt),
{
    if pktcnt != 0 {
        vec![
            Action::ModifyGrstctl(
                Grstctl { txfnum: Some(ep as u8), txfflsh: Some(true), ..Grstctl::none() },
            ),
            Action::WaitTxFlush,
        ]
    } else {
        Vec::new()
    }
}

/// Whether the words of a SETUP packet have been kept, and nothing else has changed.
pub open spec fn keeps_setup<const N: usize>(
    before: State<N>,
    after: State<N>,
    word0: u32,
    word1: u32,
) -> bool {
    &&& after.same_but_setup(before)
    &&& after.cp_state.setup_data@ == seq![word0, word1]
    &&& after.cp_state.setup_ready == before.cp_state.setup_ready
}

/// Keeps a SETUP packet until its stage is done.
pub fn setup_words<const MAX_EP_COUNT: usize>(
    state: &mut State<MAX_EP_COUNT>,
    word0: u32,
    word1: u32,
)
    ensures
        keeps_setup(*old(state), *final(state), word0, word1),
{
    state.cp_state.setup_data = [word0, word1];
}

/// The packet memory after a packet was put into it at `offset`.
pub open spec fn received(
    memory: Seq<u8>,
    offset: int,
    len: int,
    order: ByteOrder,
    words: Seq<u32>,
) -> Seq<u8> {
    Seq::new(
        memory.len(),
        |i: int|
            if offset <= i < offset + len {
                unpacked(order, words)[i - offset]
            } else {
                memory[i]
            },
    )
}

/// Whether a packet has been received for an endpoint: it is kept in the endpoint's part of the
/// packet memory, and nothing else has changed.
pub open spec fn receives<const N: usize>(
    before: State<N>,
    after: State<N>,
    memory: Seq<u8>,
    memory_after: Seq<u8>,
    ep: int,
    len: int,
    words: Seq<u32>,
) -> bool {
    &&& after.same_but_endpoint(before, ep)
    &&& after.ep_states@[ep] == EpState { out_size: len as u16, ..before.ep_states@[ep] }
    &&& memory_after == received(
        memory,
        before.ep_states@[ep].out_buffer.offset as int,
        len,
        before.byte_order,
        words,
    )
}

/// Whether a packet that came for an endpoint has been dealt with: it has been received where the
/// endpoint's buffer was empty, and dropped where it was not.
pub open spec fn delivers<const N: usize>(
    before: State<N>,
    after: State<N>,
    memory: Seq<u8>,
    memory_after: Seq<u8>,
    ep: int,
    len: int,
    words: Seq<u32>,
) -> bool {
    if before.ep_states@[ep].full() {
        after == before && memory_after == memory
    } else {
        receives(before, after, memory, memory_after, ep, len, words)
    }
}

/// What a packet for an endpoint calls for: whoever waits is woken, unless the packet is dropped.
pub open spec fn out_words_actions(state: EpState, ep: usize) -> Seq<Action> {
    if state.full() {
        Seq::empty()
    } else {
        seq![Action::WakeOut(ep)]
    }
}

/// Whether a packet of `len` bytes fits the buffer of an endpoint, and the buffer a packet memory of
/// `memory_len` bytes. A packet that is dropped always does.
pub open spec fn packet_fits(state: EpState, len: int, memory_len: int) -> bool {
    !state.full() ==> {
        &&& len <= state.out_buffer.len
        &&& state.out_buffer.offset + state.out_buffer.len <= memory_len
    }
}

/// Receives an OUT packet, which has been popped from the receive FIFO as `words`.
///
/// The packet is kept in the endpoint's part of the packet memory, and whoever waits for it is
/// woken. A packet that comes while the last one has not been read is dropped.
pub fn out_words<const MAX_EP_COUNT: usize>(
    state: &mut State<MAX_EP_COUNT>,
    memory: &mut [u8],
    ep: usize,
    len: usize,
    words: &[u32],
) -> (r: Vec<Action>)
    requires
        ep < MAX_EP_COUNT,
        len <= u16::MAX,
        words@.len() == word_count(len as int),
        packet_fits(old(state).ep_states@[ep as int], len as int, old(memory)@.len() as int),
    ensures
        r@ == out_words_actions(old(state).ep_states@[ep as int], ep),
        delivers(
            *old(state),
            *final(state),
            old(memory)@,
            final(memory)@,
            ep as int,
            len as int,
            words@,
        ),
        old(state).wf(old(memory)@.len() as int) ==> final(state).wf(old(memory)@.len() as int),
{
    let mut entry = state.ep_states[ep];
    if entry.out_size != EP_OUT_BUFFER_EMPTY {
        // the last packet has not been read
        return Vec::new();
    }
    let offset: usize = entry.out_buffer.offset;
    let order = state.byte_order;
    let ghost before = memory@;
    let memory_len: usize = memory.len();
    let mut i: usize = 0;
    while i < len
        invariant
            i <= len,
            before.len() == memory_len,
            words@.len() == word_count(len as int),
            offset + len <= before.len(),
            memory@ == received(before, offset as int, i as int, order, words@),
        decreases len - i,
    {
        let bytes = word_to_bytes(order, words[i / 4]);
        memory[offset + i] = bytes[i % 4];
        i = i + 1;
        proof {
            assert(memory@ == received(before, offset as int, i as int, order, words@));
        }
    }
    entry.out_size = len as u16;
    state.set_endpoint(ep, entry);
    vec![Action::WakeOut(ep)]
}

/// The numbers, from `from` on, whose bits are set in a mask.
pub open spec fn pending(mask: u16, from: int) -> Seq<usize>
    decreases 16 - from,
{
    if from >= 16 {
        Seq::empty()
    } else if bit(mask, from) {
        seq![from as usize] + pending(mask, from + 1)
    } else {
        pending(mask, from + 1)
    }
}

/// Every number of the pending ones has its bit set, every bit that is set is among them, and
/// they ascend: each pending endpoint is served once.
pub proof fn lemma_pending(mask: u16, from: int)
    requires
        0 <= from,
    ensures
        forall|i: int| from <= i && bit(mask, i) ==> #[trigger] pending(mask, from).contains(
            i as usize,
        ),
        forall|k: int|
            0 <= k < pending(mask, from).len() ==> from <= #[trigger] pending(mask, from)[k] < 16
                && bit(mask, pending(mask, from)[k] as int),
        forall|k: int, l: int|
            0 <= k < l < pending(mask, from).len() ==> pending(mask, from)[k] < pending(
                mask,
                from,
            )[l],
    decreases 16 - from,
{
    if from < 16 {
        lemma_pending(mask, from + 1);
        let rest = pending(mask, from + 1);
        let all = pending(mask, from);
        if bit(mask, from) {
            assert forall|i: int| from <= i && bit(mask, i) implies #[trigger] all.contains(
                i as usize,
            ) by {
                if i == from {
                    assert(all[0] == i as usize);
                } else {
                    assert(rest.contains(i as usize));
                    let k = choose|k: int| 0 <= k < rest.len() && rest[k] == i as usize;
                    assert(all[k + 1] == i as usize);
                }
            }
            assert forall|k: int| 0 <= k < all.len() implies from <= #[trigger] all[k] < 16 && bit(
                mask,
                all[k] as int,
            ) by {
                if k > 0 {
                    assert(all[k] == rest[k - 1]);
                }
            }
            assert forall|k: int, l: int| 0 <= k < l < all.len() implies all[k] < all[l] by {
                assert(all[l] == rest[l - 1]);
                if k > 0 {
                    assert(all[k] == rest[k - 1]);
                }
            }
        }
    }
}

/// Nothing is pending where no bit is left.
proof fn lemma_none_pending(mask: u16, from: u16)
    requires
        from <= 16,
        from < 16 ==> mask >> from == 0,
    ensures
        pending(mask, from as int) == Seq::<usize>::empty(),
    decreases 16 - from,
{
    if from < 16 {
        assert(mask & (1u16 << from) == 0) by (bit_vector)
            requires
                from < 16,
                mask >> from == 0,
        ;
        if from < 15 {
            let next = (from + 1) as u16;
            assert(mask >> next == 0) by (bit_vector)
                requires
                    from < 15,
                    next == from + 1,
                    mask >> from == 0,
            ;
        }
        lemma_none_pending(mask, (from + 1) as u16);
    }
}

/// Lists the endpoints whose bits are set in a mask.
fn pending_endpoints(mask: u16) -> (r: Vec<usize>)
    ensures
        r@ == pending(mask, 0),
{
    let mut list: Vec<usize> = Vec::new();
    let mut ep_mask: u16 = mask;
    let mut ep_num: u16 = 0;
    proof {
        assert(mask >> 0u16 == mask) by (bit_vector);
    }
    while ep_mask != 0
        invariant
            ep_num <= 16,
            ep_num < 16 ==> ep_mask == mask >> ep_num,
            ep_num == 16 ==> ep_mask == 0,
            list@ + pending(mask, ep_num as int) == pending(mask, 0),
        decreases 16 - ep_num,
    {
        let ghost before = list@;
        proof {
            assert((mask >> ep_num) & 1 != 0 <==> mask & (1u16 << ep_num) != 0) by (bit_vector)
                requires
                    ep_num < 16,
            ;
            let n = ep_num;
            let next = (n + 1) as u16;
            assert((mask >> n) >> 1u16 == if n < 15 {
                mask >> next
            } else {
                0
            }) by (bit_vector)
                requires
                    n < 16,
                    next == n + 1,
            ;
        }
        if ep_mask & 1 != 0 {
            list.push(ep_num as usize);
        }
        ep_mask = ep_mask >> 1u16;
        ep_num = ep_num + 1;
        proof {
            assert(list@ + pending(mask, ep_num as int) =~= before + pending(
                mask,
                ep_num - 1,
            ));
        }
    }
    proof {
        lemma_none_pending(mask, ep_num);
        assert(list@ + pending(mask, ep_num as int) =~= list@);
    }
    list
}

/// The probes that serve the IN endpoints of a mask, in ascending order.
pub open spec fn pending_in(mask: u16) -> Seq<Action> {
    pending(mask, 0).map(|k: int, ep: usize| Action::Probe(Probe::InFlags(ep)))
}

/// The probes that serve the OUT endpoints of a mask, in ascending order.
pub open spec fn pending_out(mask: u16) -> Seq<Action> {
    pending(mask, 0).map(|k: int, ep: usize| Action::Probe(Probe::OutFlags(ep)))
}

/// Serves the IN endpoints that have an interrupt pending, in ascending order.
pub fn in_mask(mask: u16) -> (r: Vec<Action>)
    ensures
        r@ == pending_in(mask),
{
    let list = pending_endpoints(mask);
    let mut actions: Vec<Action> = Vec::new();
    let mut k: usize = 0;
    while k < list.len()
        invariant
            k <= list@.len(),
            actions@.len() == k,
            forall|j: int|
                0 <= j < k ==> #[trigger] actions@[j] == Action::Probe(Probe::InFlags(list@[j])),
        decreases list@.len() - k,
    {
        actions.push(Action::Probe(Probe::InFlags(list[k])));
        k = k + 1;
    }
    actions
}

/// Serves the OUT endpoints that have an interrupt pending, in ascending order.
pub fn out_mask(mask: u16) -> (r: Vec<Action>)
    ensures
        r@ == pending_out(mask),
{
    let list = pending_endpoints(mask);
    let mut actions: Vec<Action> = Vec::new();
    let mut k: usize = 0;
    while k < list.len()
        invariant
            k <= list@.len(),
            actions@.len() == k,
            forall|j: int|
                0 <= j < k ==> #[trigger] actions@[j] == Action::Probe(Probe::OutFlags(list@[j])),
        decreases list@.len() - k,
    {
        actions.push(Action::Probe(Probe::OutFlags(list[k])));
        k = k + 1;
    }
    actions
}

/// What an IN endpoint's interrupts call for.
pub open spec fn in_actions(ep: usize, ints: Diepint) -> Seq<Action> {
    seq![Action::WriteDiepint(ep, ints.bits)] + (if ints.txfe {
        seq![
            Action::EnterCritical,
            Action::ModifyDiepempmsk(ep, false),
            Action::ExitCritical,
        ]
    } else {
        Seq::empty()
    }) + seq![Action::WakeIn(ep)]
}

/// Serves one IN endpoint: acknowledges its interrupts, masks the FIFO-empty interrupt that has
/// come, and wakes whoever waits for the endpoint.
pub fn in_flags(ep: usize, ints: Diepint) -> (r: Vec<Action>)
    ensures
        r@ == in_actions(ep, ints),
{
    let mut actions: Vec<Action> = Vec::new();
    // clear all
    actions.push(Action::WriteDiepint(ep, ints.bits));
    if ints.txfe {
        // TXFE is cleared in DIEPEMPMSK
        actions.push(Action::EnterCritical);
        actions.push(Action::ModifyDiepempmsk(ep, false));
        actions.push(Action::ExitCritical);
    }
    actions.push(Action::WakeIn(ep));
    actions
}

/// What an OUT endpoint's interrupts call for.
///
/// A SETUP packet that the DMA engine received is fetched from its buffer, behind the cache. A
/// transfer that the engine completed is looked up, unless it is the SETUP stage's own. Anything
/// else just wakes the endpoint.
pub open spec fn out_actions(ep: usize, ints: Doepint, dma_enabled: bool, setup_buf: usize) -> Seq<
    Action,
> {
    seq![Action::WriteDoepint(ep, ints.bits)] + (if ints.stup && dma_enabled && ep == 0 {
        seq![
            Action::InvalidateCache { addr: setup_buf, len: SETUP_CACHE_BYTES },
            Action::Probe(Probe::SetupBuffer),
        ]
    } else if ints.stup {
        seq![Action::WakeOut(0)]
    } else {
        Seq::empty()
    }) + probe_if(dma_enabled && ints.xfrc && !ints.stup, Probe::Remaining(ep)) + (if !dma_enabled
        || (!ints.stup && !ints.xfrc) {
        seq![Action::WakeOut(ep)]
    } else {
        Seq::empty()
    })
}

/// Whether the end of a SETUP stage has been noted: its packet is ready, unless it is still to be
/// fetched from the DMA engine's buffer, and nothing else changes.
pub open spec fn notes_out<const N: usize>(
    before: State<N>,
    after: State<N>,
    features: Features,
    ep: usize,
    ints: Doepint,
) -> bool {
    &&& after.same_but_setup(before)
    &&& after.cp_state == ControlPipeSetupState {
        setup_ready: before.cp_state.setup_ready || (ints.stup && !(features.dma
            && before.dma_enabled && ep == 0)),
        ..before.cp_state
    }
}

/// Serves one OUT endpoint.
pub fn out_flags<const MAX_EP_COUNT: usize>(
    state: &mut State<MAX_EP_COUNT>,
    features: Features,
    ep: usize,
    ints: Doepint,
) -> (r: Vec<Action>)
    ensures
        r@ == out_actions(
            ep,
            ints,
            features.dma && old(state).dma_enabled,
            old(state).setup_dma_buf,
        ),
        notes_out(*old(state), *final(state), features, ep, ints),
{
    let dma_enabled = features.dma && state.dma_enabled;
    let mut actions: Vec<Action> = Vec::new();
    // clear all
    actions.push(Action::WriteDoepint(ep, ints.bits));
    if ints.stup {
        if dma_enabled && ep == 0 {
            actions.push(
                Action::InvalidateCache { addr: state.setup_dma_buf, len: SETUP_CACHE_BYTES },
            );
            actions.push(Action::Probe(Probe::SetupBuffer));
        } else {
            state.cp_state.setup_ready = true;
            actions.push(Action::WakeOut(0));
        }
    }
    if dma_enabled && ints.xfrc && !ints.stup {
        actions.push(Action::Probe(Probe::Remaining(ep)));
    }
    if !dma_enabled || (!ints.stup && !ints.xfrc) {
        actions.push(Action::WakeOut(ep));
    }
    proof {
        assert(actions@ == out_actions(
            ep,
            ints,
            features.dma && old(state).dma_enabled,
            old(state).setup_dma_buf,
        ));
    }
    actions
}

/// Whether a SETUP packet has been taken over from the DMA engine and is ready, and nothing else has
/// changed.
pub open spec fn takes_setup<const N: usize>(
    before: State<N>,
    after: State<N>,
    setup_buf: Seq<u8>,
) -> bool {
    &&& after.same_but_setup(before)
    &&& after.cp_state.setup_data@ == seq![
        word_of(ByteOrder::Little, setup_buf.subrange(0, 4)),
        word_of(ByteOrder::Little, setup_buf.subrange(4, 8)),
    ]
    &&& after.cp_state.setup_ready
}

/// What a SETUP packet in the DMA engine's buffer calls for: the engine is to receive the next, and
/// whoever waits is woken.
pub open spec fn setup_buffer_actions(setup_addr: u32) -> Seq<Action> {
    arm_setup_actions(0, setup_addr) + seq![Action::WakeOut(0)]
}

/// Takes over a SETUP packet that the DMA engine received, and lets the engine receive the next.
pub fn setup_buffer<const MAX_EP_COUNT: usize>(
    state: &mut State<MAX_EP_COUNT>,
    setup_buf: [u8; 8],
) -> (r: Vec<Action>)
    ensures
        r@ == setup_buffer_actions(old(state).setup_dma_buf as u32),
        takes_setup(*old(state), *final(state), setup_buf@),
{
    let word0: u32 = word_from_bytes(
        ByteOrder::Little,
        [setup_buf[0], setup_buf[1], setup_buf[2], setup_buf[3]],
    );
    let word1: u32 = word_from_bytes(
        ByteOrder::Little,
        [setup_buf[4], setup_buf[5], setup_buf[6], setup_buf[7]],
    );
    state.cp_state.setup_data = [word0, word1];
    state.cp_state.setup_ready = true;
    let mut actions = arm_setup(0, state.setup_dma_buf_addr());
    actions.push(Action::WakeOut(0));
    actions
}

/// Bytes that the DMA engine received, from the size of the transfer and what is left of it.
pub open spec fn received_len(xfer_size: u16, remaining: u32) -> u16 {
    if remaining <= xfer_size {
        (xfer_size - remaining) as u16
    } else {
        0
    }
}

/// Whether the length of a packet that the DMA engine received has been noted, and nothing else has
/// changed.
pub open spec fn completes<const N: usize>(
    before: State<N>,
    after: State<N>,
    ep: int,
    xfrsiz: u32,
) -> bool {
    &&& after.same_but_endpoint(before, ep)
    &&& after.ep_states@[ep] == EpState {
        out_size: received_len(before.ep_states@[ep].out_xfer_size, xfrsiz),
        ..before.ep_states@[ep]
    }
}

/// Notes the length of a packet that the DMA engine received, and wakes whoever waits for it.
pub fn remaining<const MAX_EP_COUNT: usize>(
    state: &mut State<MAX_EP_COUNT>,
    ep: usize,
    xfrsiz: u32,
) -> (r: Vec<Action>)
    requires
        ep < MAX_EP_COUNT,
    ensures
        r@ == seq![Action::WakeOut(ep)],
        completes(*old(state), *final(state), ep as int, xfrsiz),
        forall|n: int| #![trigger old(state).wf(n)] old(state).wf(n) ==> final(state).wf(n),
{
    let mut entry = state.ep_states[ep];
    let xfer_size: u32 = entry.out_xfer_size as u32;
    entry.out_size = if xfrsiz <= xfer_size {
        (xfer_size - xfrsiz) as u16
    } else {
        0
    };
    state.set_endpoint(ep, entry);
    vec![Action::WakeOut(ep)]
}

} // verus!
