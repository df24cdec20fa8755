//! What serving the core's interrupts comes to.
//!
//! Each law speaks of what an operation returns and leaves behind, for all that it may be given.
use crate::action::{Action, Probe};
use crate::bus::{abort_in, cancel_transfer, turnaround};
use crate::config::Features;
use crate::dispatch::{follow, is_answerable, Reading};
use crate::endpoint::frame_parity;
use crate::fifo::{bytes_of, lemma_bytes_of_word, ByteOrder};
use crate::interrupt::{
    in_flags, in_mask, is_rx_valid, lemma_pending, on_interrupt, out_flags, out_mask, out_words,
    pending, remaining, rx_level, rx_status, setup_buffer, setup_words, tx_pending,
};
use crate::program::Program;
use crate::registers::{Diepint, Doepint, Gintsts, RxStatus};
use crate::state::State;
use vstd::prelude::*;

verus! {

/// Whether two states agree on everything but the SETUP stage, field by field.
pub open spec fn only_setup_differs<const N: usize>(a: State<N>, b: State<N>) -> bool {
    &&& a.ep_states == b.ep_states
    &&& a.dma_enabled == b.dma_enabled
    &&& a.setup_dma_buf == b.setup_dma_buf
    &&& a.byte_order == b.byte_order
}

/// Whether two states agree on everything but what endpoint `ep` has received or is about to
/// receive, field by field.
pub open spec fn only_reception_differs<const N: usize>(a: State<N>, b: State<N>, ep: int) -> bool {
    &&& forall|i: int| 0 <= i < N && i != ep ==> #[trigger] a.ep_states@[i] == b.ep_states@[i]
    &&& a.ep_states@[ep].out_buffer == b.ep_states@[ep].out_buffer
    &&& a.cp_state == b.cp_state
    &&& a.dma_enabled == b.dma_enabled
    &&& a.setup_dma_buf == b.setup_dma_buf
    &&& a.byte_order == b.byte_order
}

/// Each kind of interrupt that is pending is served, and no other: the IN endpoints exactly where
/// theirs is pending, the OUT endpoints exactly where theirs is, the bus where any of its own is,
/// and the receive queue unless the DMA engine empties it. The receive queue comes before the IN
/// endpoints, and these before the OUT endpoints; each is served once.
pub proof fn law_pending_interrupts_are_served<const N: usize>(
    ints: Gintsts,
    features: Features,
    state: State<N>,
    r: Vec<Action>,
)
    requires
        call_ensures(on_interrupt::<N>, (ints, features, &state), r),
    ensures
        r@.contains(Action::Probe(Probe::InMask)) <==> ints.iepint,
        r@.contains(Action::Probe(Probe::OutMask)) <==> ints.oepint,
        r@.contains(Action::Probe(Probe::RxLevel)) <==> !(features.dma && state.dma_enabled),
        r@.contains(Action::WakeBus) <==> (ints.wkupint || ints.usbsusp || ints.usbrst
            || ints.enumdne || ints.otgint || ints.srqint),
        r@.no_duplicates(),
        forall|i: int, j: int|
            0 <= i < j < r@.len() ==> {
                &&& !(r@[i] == Action::Probe(Probe::OutMask) && (#[trigger] r@[j]) is Probe)
                &&& !((#[trigger] r@[i]) == Action::Probe(Probe::InMask) && r@[j] == Action::Probe(
                    Probe::RxLevel,
                ))
            },
        forall|i: int|
            0 <= i < r@.len() ==> (#[trigger] r@[i]) is WriteGintmsk || r@[i] is WakeBus || r@[i]
                is Probe,
{
    let rx = Action::Probe(Probe::RxLevel);
    let bus: int = if ints.wkupint || ints.usbsusp || ints.usbrst || ints.enumdne || ints.otgint
        || ints.srqint {
        2
    } else {
        0
    };
    let queue: int = if features.dma && state.dma_enabled {
        0
    } else {
        1
    };
    let ins: int = if ints.iepint {
        1
    } else {
        0
    };
    assert(bus == 2 ==> r@[1] is WakeBus);
    assert(queue == 1 ==> r@[bus] == rx);
    assert(ints.iepint ==> r@[bus + queue] == Action::Probe(Probe::InMask));
    assert(ints.oepint ==> r@[bus + queue + ins] == Action::Probe(Probe::OutMask));
}

/// While the bus deals with an interrupt of its own, all of these are masked and those of the
/// endpoints stay on; that of the receive queue does in FIFO mode. The bus is woken right after.
pub proof fn law_bus_interrupts_are_masked<const N: usize>(
    ints: Gintsts,
    features: Features,
    state: State<N>,
    r: Vec<Action>,
    i: int,
)
    requires
        call_ensures(on_interrupt::<N>, (ints, features, &state), r),
        0 <= i < r@.len(),
        r@[i] is WriteGintmsk || r@[i] is WakeBus,
    ensures
        r@[0] is WriteGintmsk,
        r@[1] is WakeBus,
        i < 2,
        ({
            let mask = r@[0]->WriteGintmsk_0;
            &&& !mask.usbrst && !mask.enumdnem && !mask.usbsuspm && !mask.wuim && !mask.srqim
                && !mask.otgint
            &&& mask.iepint && mask.oepint
            &&& mask.rxflvlm == !(features.dma && state.dma_enabled)
        }),
{
}

/// The receive queue is looked at again after each entry, until it is empty.
pub proof fn law_receive_queue_is_emptied(rxflvl: bool, r: Vec<Action>)
    requires
        call_ensures(rx_level, (rxflvl,), r),
    ensures
        r@.len() == if rxflvl {
            2nat
        } else {
            0
        },
        rxflvl ==> r@[0] == Action::Probe(Probe::RxStatus),
        rxflvl ==> r@[1] == Action::Probe(Probe::RxLevel),
{
}

/// An entry of the receive queue is refused exactly where it names an endpoint that is not there,
/// or is a SETUP packet that is not eight bytes for endpoint 0.
pub proof fn law_entries_are_checked(status: RxStatus, ep_count: usize, r: bool)
    requires
        call_ensures(is_rx_valid, (status, ep_count), r),
    ensures
        !r <==> status.epnum >= ep_count || (status.pktstsd is SetupDataRx && (status.bcnt != 8
            || status.epnum != 0)),
{
}

/// An entry of the receive queue leads to the words that it announces and to no others: two for a
/// SETUP packet, after what is stuck in the way of its answer has been looked for, and those of the
/// packet for an OUT packet. No other entry has words.
///
/// A SETUP packet becomes ready at the end of its stage, on the AR8030, and nothing else changes.
pub proof fn law_entries_are_handled<const N: usize>(
    state: &mut State<N>,
    features: Features,
    status: RxStatus,
    ep_count: usize,
    r: Vec<Action>,
)
    requires
        call_ensures(rx_status::<N>, (state, features, status, ep_count), r),
    ensures
        status.pktstsd is SetupDataRx ==> {
            &&& r@.len() == 2
            &&& r@[0] == Action::Probe(Probe::TxPending(status.epnum as usize))
            &&& r@[1] == Action::Probe(Probe::SetupWords)
        },
        status.pktstsd is OutDataRx ==> {
            &&& r@.len() == 1
            &&& r@[0] is Probe
            &&& r@[0]->Probe_0 is OutWords
            &&& r@[0]->Probe_0->OutWords_ep == status.epnum
            &&& r@[0]->Probe_0->OutWords_len == status.bcnt
        },
        !(status.pktstsd is SetupDataRx) && !(status.pktstsd is OutDataRx) ==> r@.len() == 0,
        only_setup_differs(*final(state), *old(state)),
        final(state).cp_state.setup_data == old(state).cp_state.setup_data,
        final(state).cp_state.setup_ready <==> (old(state).cp_state.setup_ready || (features.ar8030
            && status.pktstsd is SetupDataDone)),
{
}

/// Where a packet is stuck in a transmit FIFO, that FIFO and no other is flushed, and the flush is
/// awaited.
pub proof fn law_stuck_packets_are_flushed(ep: usize, pktcnt: u16, r: Vec<Action>)
    requires
        call_ensures(tx_pending, (ep, pktcnt), r),
    ensures
        pktcnt == 0 ==> r@.len() == 0,
        pktcnt > 0 ==> {
            &&& r@.len() == 2
            &&& r@[0] is ModifyGrstctl
            &&& r@[0]->ModifyGrstctl_0.txfflsh == Some(true)
            &&& r@[0]->ModifyGrstctl_0.txfnum == Some(ep as u8)
            &&& r@[0]->ModifyGrstctl_0.csrst is None
            &&& r@[0]->ModifyGrstctl_0.rxfflsh is None
            &&& r@[1] is WaitTxFlush
        },
{
}

/// The words of a SETUP packet are kept in order; whether one is ready does not change, nor does
/// anything else.
pub proof fn law_setup_words_are_kept<const N: usize>(
    state: &mut State<N>,
    word0: u32,
    word1: u32,
)
    requires
        call_ensures(setup_words::<N>, (state, word0, word1), ()),
    ensures
        only_setup_differs(*final(state), *old(state)),
        final(state).cp_state.setup_data@[0] == word0,
        final(state).cp_state.setup_data@[1] == word1,
        final(state).cp_state.setup_ready == old(state).cp_state.setup_ready,
{
}

/// A packet that comes while its endpoint's buffer is free is put at the start of that buffer, byte
/// by byte as the words have them; its length is kept and whoever waits for it is woken. Nothing
/// else in memory or in the state changes. A packet that comes while the last one has not been
/// read changes nothing at all.
pub proof fn law_packets_are_kept_or_dropped<const N: usize>(
    state: &mut State<N>,
    memory: &mut [u8],
    ep: usize,
    len: usize,
    words: &[u32],
    r: Vec<Action>,
)
    requires
        call_ensures(out_words::<N>, (state, memory, ep, len, words), r),
        ep < N,
        len <= u16::MAX,
        old(state).ep_states@[ep as int].out_buffer.offset + len <= old(memory)@.len(),
        words@.len() == (len + 3) / 4,
    ensures
        old(state).ep_states@[ep as int].out_size != 0xFFFF ==> {
            &&& r@.len() == 0
            &&& *final(state) == *old(state)
            &&& final(memory)@ == old(memory)@
        },
        old(state).ep_states@[ep as int].out_size == 0xFFFF ==> {
            let offset = old(state).ep_states@[ep as int].out_buffer.offset as int;
            &&& r@.len() == 1
            &&& r@[0] == Action::WakeOut(ep)
            &&& only_reception_differs(*final(state), *old(state), ep as int)
            &&& final(state).ep_states@[ep as int].out_size == len
            &&& final(state).ep_states@[ep as int].out_xfer_size == old(
                state,
            ).ep_states@[ep as int].out_xfer_size
            &&& final(memory)@.len() == old(memory)@.len()
            &&& forall|k: int|
                0 <= k < old(memory)@.len() && !(offset <= k < offset + len)
                    ==> #[trigger] final(memory)@[k] == old(memory)@[k]
            &&& forall|k: int|
                0 <= k < len ==> #[trigger] final(memory)@[offset + k] == bytes_of(
                    old(state).byte_order,
                    words@[k / 4],
                )[k % 4]
        },
{
}

/// Every IN endpoint whose bit is set in the mask is served, once, in ascending order, and no
/// other is.
pub proof fn law_pending_in_endpoints_are_served(mask: u16, r: Vec<Action>, ep: usize)
    requires
        call_ensures(in_mask, (mask,), r),
    ensures
        r@.contains(Action::Probe(Probe::InFlags(ep))) <==> (ep < 16 && mask & (1u16 << (
        ep as u16)) != 0),
        forall|k: int|
            0 <= k < r@.len() ==> (#[trigger] r@[k]) is Probe && r@[k]->Probe_0 is InFlags,
        forall|k: int, l: int|
            0 <= k < l < r@.len() ==> (#[trigger] r@[k])->Probe_0->InFlags_0 < (
            #[trigger] r@[l])->Probe_0->InFlags_0,
{
    lemma_pending(mask, 0);
    let list = pending(mask, 0);
    if ep < 16 && mask & (1u16 << (ep as u16)) != 0 {
        assert(list.contains(ep as int as usize));
        let k = choose|k: int| 0 <= k < list.len() && list[k] == ep;
        assert(r@[k] == Action::Probe(Probe::InFlags(ep)));
    }
    if r@.contains(Action::Probe(Probe::InFlags(ep))) {
        let k = choose|k: int| 0 <= k < r@.len() && r@[k] == Action::Probe(Probe::InFlags(ep));
        assert(list[k] == ep);
    }
    assert forall|k: int| 0 <= k < r@.len() implies (#[trigger] r@[k]) is Probe && r@[k]->Probe_0
        is InFlags && r@[k]->Probe_0->InFlags_0 == list[k] by {}
}

/// Every OUT endpoint whose bit is set in the mask is served, once, in ascending order, and no
/// other is.
pub proof fn law_pending_out_endpoints_are_served(mask: u16, r: Vec<Action>, ep: usize)
    requires
        call_ensures(out_mask, (mask,), r),
    ensures
        r@.contains(Action::Probe(Probe::OutFlags(ep))) <==> (ep < 16 && mask & (1u16 << (
        ep as u16)) != 0),
        forall|k: int|
            0 <= k < r@.len() ==> (#[trigger] r@[k]) is Probe && r@[k]->Probe_0 is OutFlags,
        forall|k: int, l: int|
            0 <= k < l < r@.len() ==> (#[trigger] r@[k])->Probe_0->OutFlags_0 < (
            #[trigger] r@[l])->Probe_0->OutFlags_0,
{
    lemma_pending(mask, 0);
    let list = pending(mask, 0);
    if ep < 16 && mask & (1u16 << (ep as u16)) != 0 {
        assert(list.contains(ep as int as usize));
        let k = choose|k: int| 0 <= k < list.len() && list[k] == ep;
        assert(r@[k] == Action::Probe(Probe::OutFlags(ep)));
    }
    if r@.contains(Action::Probe(Probe::OutFlags(ep))) {
        let k = choose|k: int| 0 <= k < r@.len() && r@[k] == Action::Probe(Probe::OutFlags(ep));
        assert(list[k] == ep);
    }
    assert forall|k: int| 0 <= k < r@.len() implies (#[trigger] r@[k]) is Probe && r@[k]->Probe_0
        is OutFlags && r@[k]->Probe_0->OutFlags_0 == list[k] by {}
}

/// Serving an IN endpoint acknowledges all of its interrupts first and wakes its task last, and
/// masks its FIFO-empty interrupt in between exactly where that has come.
pub proof fn law_in_endpoint_is_served(ep: usize, ints: Diepint, r: Vec<Action>)
    requires
        call_ensures(in_flags, (ep, ints), r),
    ensures
        r@[0] == Action::WriteDiepint(ep, ints.bits),
        r@.last() == Action::WakeIn(ep),
        r@.len() == if ints.txfe {
            5nat
        } else {
            2
        },
        ints.txfe ==> {
            &&& r@[1] is EnterCritical
            &&& r@[2] == Action::ModifyDiepempmsk(ep, false)
            &&& r@[3] is ExitCritical
        },
{
}

/// Serving an OUT endpoint acknowledges all of its interrupts first. A SETUP packet of the DMA
/// engine is fetched, after the cache has been invalidated, exactly for endpoint 0 with DMA; a
/// completed transfer is looked up exactly where DMA is in use and it is not that of a SETUP stage.
pub proof fn law_out_endpoint_is_served<const N: usize>(
    state: &mut State<N>,
    features: Features,
    ep: usize,
    ints: Doepint,
    r: Vec<Action>,
)
    requires
        call_ensures(out_flags::<N>, (state, features, ep, ints), r),
    ensures
        r@[0] == Action::WriteDoepint(ep, ints.bits),
        ({
            let dma = features.dma && old(state).dma_enabled;
            &&& r@.contains(Action::Probe(Probe::SetupBuffer)) <==> (dma && ints.stup && ep == 0)
            &&& dma && ints.stup && ep == 0 ==> r@.len() == 3 && r@[1] == (
            Action::InvalidateCache { addr: old(state).setup_dma_buf, len: 64 }) && r@[2]
                == Action::Probe(Probe::SetupBuffer)
            &&& r@.contains(Action::Probe(Probe::Remaining(ep))) <==> (dma && ints.xfrc
                && !ints.stup)
            &&& dma && ints.xfrc && !ints.stup ==> r@.len() == 2
        }),
{
    let dma = features.dma && old(state).dma_enabled;
    assert(dma && ints.stup && ep == 0 ==> r@[2] == Action::Probe(Probe::SetupBuffer));
    assert(dma && ints.xfrc && !ints.stup ==> r@[1] == Action::Probe(Probe::Remaining(ep)));
}

/// Where nothing is to be fetched for an OUT endpoint first, tasks are woken at once: that of the
/// endpoint for anything but a SETUP stage with DMA, and that of the control pipe for the end of a
/// SETUP stage, whose packet is then ready. Nothing else of the state changes.
pub proof fn law_out_endpoint_wakes<const N: usize>(
    state: &mut State<N>,
    features: Features,
    ep: usize,
    ints: Doepint,
    r: Vec<Action>,
)
    requires
        call_ensures(out_flags::<N>, (state, features, ep, ints), r),
    ensures
        ({
            let dma = features.dma && old(state).dma_enabled;
            &&& !dma && !ints.stup ==> r@.len() == 2 && r@[1] == Action::WakeOut(ep)
            &&& !dma && ints.stup ==> r@.len() == 3 && r@[1] == Action::WakeOut(0) && r@[2]
                == Action::WakeOut(ep)
            &&& dma && ints.stup && ep != 0 ==> r@.len() == 2 && r@[1] == Action::WakeOut(0)
            &&& dma && !ints.stup && !ints.xfrc ==> r@.len() == 2 && r@[1] == Action::WakeOut(ep)
            &&& final(state).cp_state.setup_ready <==> (old(state).cp_state.setup_ready || (
            ints.stup && !(dma && ep == 0)))
        }),
        only_setup_differs(*final(state), *old(state)),
        final(state).cp_state.setup_data == old(state).cp_state.setup_data,
{
}

/// A SETUP packet in the DMA engine's buffer becomes ready, its words made of its bytes with the
/// least significant first. The engine may then put up to three more packets, 24 bytes, into the
/// same buffer, and the control pipe is woken last.
pub proof fn law_setup_buffer_is_taken_over<const N: usize>(
    state: &mut State<N>,
    setup_buf: [u8; 8],
    r: Vec<Action>,
)
    requires
        call_ensures(setup_buffer::<N>, (state, setup_buf), r),
    ensures
        only_setup_differs(*final(state), *old(state)),
        final(state).cp_state.setup_ready,
        bytes_of(ByteOrder::Little, final(state).cp_state.setup_data@[0]) == setup_buf@.subrange(
            0,
            4,
        ),
        bytes_of(ByteOrder::Little, final(state).cp_state.setup_data@[1]) == setup_buf@.subrange(
            4,
            8,
        ),
        r@.len() == 4,
        r@[0] is WriteDoeptsiz,
        r@[0]->WriteDoeptsiz_0 == 0,
        r@[0]->WriteDoeptsiz_1.pktcnt == Some(1u16),
        r@[0]->WriteDoeptsiz_1.xfrsiz == Some(24u32),
        r@[0]->WriteDoeptsiz_1.rxdpid_stupcnt == Some(3u8),
        r@[1] == Action::WriteDoepdma(0, old(state).setup_dma_buf as u32),
        r@[2] is ModifyDoepctl,
        r@[2]->ModifyDoepctl_0 == 0,
        r@[2]->ModifyDoepctl_1.cnak == Some(true),
        r@[2]->ModifyDoepctl_1.epena == Some(true),
        r@[3] == Action::WakeOut(0),
{
    lemma_bytes_of_word(ByteOrder::Little, setup_buf@.subrange(0, 4));
    lemma_bytes_of_word(ByteOrder::Little, setup_buf@.subrange(4, 8));
}

/// The length of a packet that the DMA engine received is what it was asked for less what is left,
/// and nothing where more is left than it was asked for; the endpoint's task is woken, and nothing
/// else of the state changes.
pub proof fn law_dma_reception_is_noted<const N: usize>(
    state: &mut State<N>,
    ep: usize,
    xfrsiz: u32,
    r: Vec<Action>,
)
    requires
        call_ensures(remaining::<N>, (state, ep, xfrsiz), r),
        ep < N,
    ensures
        r@.len() == 1,
        r@[0] == Action::WakeOut(ep),
        only_reception_differs(*final(state), *old(state), ep as int),
        final(state).ep_states@[ep as int].out_xfer_size == old(
            state,
        ).ep_states@[ep as int].out_xfer_size,
        xfrsiz <= old(state).ep_states@[ep as int].out_xfer_size
            ==> final(state).ep_states@[ep as int].out_size + xfrsiz == old(
            state,
        ).ep_states@[ep as int].out_xfer_size,
        xfrsiz > old(state).ep_states@[ep as int].out_xfer_size
            ==> final(state).ep_states@[ep as int].out_size == 0,
{
}

// Fetched values
/// Handing on a value that leads to actions alone: the state and the packet memory stay as they are,
/// and the actions are those of the function that the probe names, for the probe's own endpoint.
pub proof fn law_readings_that_only_act<const N: usize>(
    state: &mut State<N>,
    memory: &mut [u8],
    features: Features,
    ep_count: usize,
    probe: Probe,
    reading: Reading,
    r: Vec<Action>,
    other: Vec<Action>,
)
    requires
        call_ensures(follow::<N>, (state, memory, features, ep_count, probe, &reading), r),
        match (probe, reading) {
            (Probe::RxLevel, Reading::RxLevel(rxflvl)) => call_ensures(rx_level, (rxflvl,), other),
            (Probe::TxPending(ep), Reading::TxPending(n)) => call_ensures(
                tx_pending,
                (ep, n),
                other,
            ),
            (Probe::InMask, Reading::InMask(mask)) => call_ensures(in_mask, (mask,), other),
            (Probe::InFlags(ep), Reading::InFlags(ints)) => call_ensures(
                in_flags,
                (ep, ints),
                other,
            ),
            (Probe::OutMask, Reading::OutMask(mask)) => call_ensures(out_mask, (mask,), other),
            (Probe::CancelTransfer(dir, ep), Reading::CancelTransfer(epena)) => call_ensures(
                cancel_transfer,
                (dir, ep, epena),
                other,
            ),
            (Probe::AbortIn(ep), Reading::AbortIn(epena)) => call_ensures(
                abort_in,
                (ep, epena),
                other,
            ),
            (Probe::EnumSpeed, Reading::EnumSpeed(trdt)) => call_ensures(
                turnaround,
                (trdt,),
                other,
            ),
            (Probe::FrameNumber(dir, ep), Reading::FrameNumber(fnsof)) => call_ensures(
                frame_parity,
                (dir, ep, fnsof),
                other,
            ),
            _ => false,
        },
    ensures
        r@ == other@,
        *final(state) == *old(state),
        final(memory)@ == old(memory)@,
{
}

/// Handing on an entry of the receive queue, or the interrupts of an OUT endpoint: the actions are
/// those of the function that the probe names, and the state is left as it leaves it. The packet
/// memory stays as it is.
pub proof fn law_readings_that_note<const N: usize>(
    state: &mut State<N>,
    memory: &mut [u8],
    features: Features,
    ep_count: usize,
    probe: Probe,
    reading: Reading,
    r: Vec<Action>,
    other_state: &mut State<N>,
    other: Vec<Action>,
)
    requires
        call_ensures(follow::<N>, (state, memory, features, ep_count, probe, &reading), r),
        *old(other_state) == *old(state),
        match (probe, reading) {
            (Probe::RxStatus, Reading::RxStatus(status)) => call_ensures(
                rx_status::<N>,
                (other_state, features, status, ep_count),
                other,
            ),
            (Probe::OutFlags(ep), Reading::OutFlags(ints)) => call_ensures(
                out_flags::<N>,
                (other_state, features, ep, ints),
                other,
            ),
            _ => false,
        },
    ensures
        r@ == other@,
        *final(state) == *final(other_state),
        final(memory)@ == old(memory)@,
{
}

/// Handing on a SETUP packet, from the receive FIFO or from the DMA engine's buffer: the words are
/// kept, in order, and with DMA the packet is ready; the actions are those of the function that the
/// probe names. The packet memory stays as it is.
pub proof fn law_readings_of_setup_packets<const N: usize>(
    state: &mut State<N>,
    memory: &mut [u8],
    features: Features,
    ep_count: usize,
    probe: Probe,
    reading: Reading,
    r: Vec<Action>,
    other_state: &mut State<N>,
    other: Vec<Action>,
)
    requires
        call_ensures(follow::<N>, (state, memory, features, ep_count, probe, &reading), r),
        *old(other_state) == *old(state),
        match (probe, reading) {
            (Probe::SetupWords, Reading::SetupWords(word0, word1)) => call_ensures(
                setup_words::<N>,
                (other_state, word0, word1),
                (),
            ) && other@.len() == 0,
            (Probe::SetupBuffer, Reading::SetupBuffer(packet)) => call_ensures(
                setup_buffer::<N>,
                (other_state, packet),
                other,
            ),
            _ => false,
        },
    ensures
        r@ == other@,
        final(memory)@ == old(memory)@,
        only_setup_differs(*final(state), *old(state)),
        final(state).cp_state.setup_data@ == final(other_state).cp_state.setup_data@,
        final(state).cp_state.setup_ready == final(other_state).cp_state.setup_ready,
{
}

/// Handing on the words of a packet, or what is left of a transfer: the actions are those of the
/// function that the probe names, for the probe's own endpoint, and so are the state and the packet
/// memory.
pub proof fn law_readings_of_packets<const N: usize>(
    state: &mut State<N>,
    memory: &mut [u8],
    features: Features,
    ep_count: usize,
    probe: Probe,
    reading: Reading,
    r: Vec<Action>,
    other_state: &mut State<N>,
    other_memory: &mut [u8],
    words: &[u32],
    other: Vec<Action>,
    i: int,
)
    requires
        call_ensures(follow::<N>, (state, memory, features, ep_count, probe, &reading), r),
        *old(other_state) == *old(state),
        old(other_memory)@ == old(memory)@,
        0 <= i < N,
        match (probe, reading) {
            (Probe::OutWords { ep, len }, Reading::OutWords(list)) => {
                &&& ep < N
                &&& words@ == list@
                &&& call_ensures(
                    out_words::<N>,
                    (other_state, other_memory, ep, len, words),
                    other,
                )
            },
            (Probe::Remaining(ep), Reading::Remaining(xfrsiz)) => {
                &&& ep < N
                &&& call_ensures(remaining::<N>, (other_state, ep, xfrsiz), other)
                &&& final(other_memory)@ == old(other_memory)@
            },
            _ => false,
        },
    ensures
        r@ == other@,
        final(memory)@ == final(other_memory)@,
        final(state).ep_states@[i] == final(other_state).ep_states@[i],
        final(state).cp_state == old(state).cp_state,
        final(state).dma_enabled == old(state).dma_enabled,
        final(state).setup_dma_buf == old(state).setup_dma_buf,
        final(state).byte_order == old(state).byte_order,
{
}

/// A value is taken for a probe exactly where it is of the probe's own kind and the hardware may
/// deliver it: an entry of the receive queue is checked as by [`is_rx_valid`], a packet has as many
/// words as it needs and, unless it is dropped, fits its buffer, and a transfer is of an endpoint
/// that there is.
pub proof fn law_readings_are_checked<const N: usize>(
    state: State<N>,
    memory_len: usize,
    ep_count: usize,
    probe: Probe,
    reading: Reading,
    r: bool,
)
    requires
        call_ensures(
            is_answerable::<N>,
            (&state, memory_len, ep_count, probe, &reading),
            r,
        ),
    ensures
        probe is RxLevel ==> (r <==> reading is RxLevel),
        probe is RxStatus ==> (r <==> reading is RxStatus && {
            let status = reading->RxStatus_0;
            status.epnum < ep_count && (status.pktstsd is SetupDataRx ==> status.bcnt == 8
                && status.epnum == 0)
        }),
        probe is TxPending ==> (r <==> reading is TxPending),
        probe is SetupWords ==> (r <==> reading is SetupWords),
        probe is OutWords ==> (r <==> reading is OutWords && {
            let ep = probe->OutWords_ep as int;
            let len = probe->OutWords_len as int;
            let slot = state.ep_states@[ep].out_buffer;
            &&& ep < N
            &&& len <= 0xFFFF
            &&& len <= 4 * reading->OutWords_0@.len() < len + 4
            &&& state.ep_states@[ep].out_size == 0xFFFF ==> len <= slot.len && slot.offset
                + slot.len <= memory_len
        }),
        probe is InMask ==> (r <==> reading is InMask),
        probe is InFlags ==> (r <==> reading is InFlags),
        probe is OutMask ==> (r <==> reading is OutMask),
        probe is OutFlags ==> (r <==> reading is OutFlags),
        probe is SetupBuffer ==> (r <==> reading is SetupBuffer),
        probe is Remaining ==> (r <==> reading is Remaining && probe->Remaining_0 < N),
        probe is CancelTransfer ==> (r <==> reading is CancelTransfer),
        probe is AbortIn ==> (r <==> reading is AbortIn),
        probe is EnumSpeed ==> (r <==> reading is EnumSpeed),
        probe is FrameNumber ==> (r <==> reading is FrameNumber),
{
}

/// A program is made of all its actions, and hands out the first of them first.
pub proof fn law_programs_begin_with_their_actions(
    actions: &[Action],
    program: Program,
    later: &mut Program,
    r: Option<Action>,
)
    requires
        call_ensures(Program::new, (actions,), program),
        *old(later) == program,
        call_ensures(Program::next, (later,), r),
    ensures
        program@.len() == actions@.len(),
        actions@.len() == 0 ==> r is None,
        actions@.len() > 0 ==> r == Some(actions@[0]) && final(later)@ == actions@.skip(1),
{
}

/// Actions come out of a program in order, those put before the rest first.
pub proof fn law_programs_keep_order(
    program: &mut Program,
    actions: &[Action],
    later: &mut Program,
    r: Option<Action>,
)
    requires
        call_ensures(Program::precede, (program, actions), ()),
        *old(later) == *final(program),
        call_ensures(Program::next, (later,), r),
    ensures
        actions@.len() > 0 ==> {
            &&& r == Some(actions@[0])
            &&& final(later)@ == actions@.skip(1) + old(program)@
        },
        actions@.len() == 0 && old(program)@.len() > 0 ==> {
            &&& r == Some(old(program)@[0])
            &&& final(later)@ == old(program)@.skip(1)
        },
        actions@.len() == 0 && old(program)@.len() == 0 ==> r is None,
{
    if actions@.len() > 0 {
        assert((actions@ + old(program)@).skip(1) =~= actions@.skip(1) + old(program)@);
    } else {
        assert(actions@ + old(program)@ =~= old(program)@);
    }
}

} // verus!
