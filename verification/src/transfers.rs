//! What transfers on endpoints and on the control pipe come to.
//!
//! Each law speaks of what an operation returns and leaves behind, for all that it may be given.
use crate::action::{Action, Probe};
use crate::bus::arm_setup;
use crate::control::{ControlPipe, DataInNext, SetupStep};
use crate::endpoint::{
    fifo_writes, frame_parity, parity_probe, Endpoint, In, Out, ReadPoll, ReadStep, WritePoll,
    WriteStage, WriteStep,
};
use crate::events::leaves_setup;
use crate::fifo::{
    bytes_of, lemma_bytes_of_word, packed, padded, word_count, word_of, ByteOrder,
};
use crate::registers::{EpStatus, Epctl};
use crate::serving::{only_reception_differs, only_setup_differs};
use crate::state::State;
use crate::types::{Direction, EndpointError, EndpointInfo};
use vstd::prelude::*;

verus! {

/// Whether an update of a control register starts a transfer, and does nothing else.
pub open spec fn starts_transfer(c: Epctl) -> bool {
    &&& c.cnak == Some(true) && c.epena == Some(true)
    &&& c.snak is None && c.epdis is None && c.usbaep is None
    &&& leaves_setup(c)
}

/// An isochronous endpoint is set to the frame after the current one: to even frames after an odd
/// one, and to odd frames after an even one; nothing else of its register changes.
pub proof fn law_next_frame_has_other_parity(
    dir: Direction,
    index: usize,
    fnsof: u16,
    r: Vec<Action>,
)
    requires
        call_ensures(frame_parity, (dir, index, fnsof), r),
    ensures
        r@.len() == 1,
        dir is In ==> r@[0] is ModifyDiepctl && r@[0]->ModifyDiepctl_0 == index,
        dir is Out ==> r@[0] is ModifyDoepctl && r@[0]->ModifyDoepctl_0 == index,
        ({
            let c = if dir is In {
                r@[0]->ModifyDiepctl_1
            } else {
                r@[0]->ModifyDoepctl_1
            };
            &&& (fnsof + 1) % 2 == 0 ==> c.sd0pid_sevnfrm == Some(true) && c.sd1pid_soddfrm is None
            &&& (fnsof + 1) % 2 == 1 ==> c.sd1pid_soddfrm == Some(true) && c.sd0pid_sevnfrm is None
            &&& c.mpsiz is None && c.usbaep is None && c.eptyp is None && c.stall is None
                && c.txfnum is None && c.cnak is None && c.snak is None && c.epdis is None
                && c.epena is None
        }),
{
}

/// An endpoint tells what is known of it, and is enabled exactly where its register says that it is
/// active.
pub proof fn law_endpoints_tell<D>(
    ep: Endpoint<D>,
    info: EndpointInfo,
    status: EpStatus,
    enabled: bool,
)
    requires
        call_ensures(Endpoint::<D>::info, (&ep,), &info),
        call_ensures(Endpoint::<D>::wait_enabled, (&ep, status), enabled),
    ensures
        info == ep.info,
        enabled == status.usbaep,
{
}

// Receiving
/// Whether a list lets the DMA engine receive one packet into the buffer at `addr`, in a critical
/// section: the engine is told the size of one packet and the place before the endpoint is enabled.
pub open spec fn arms_dma(l: Seq<Action>, ep: Endpoint<Out>, addr: usize) -> bool {
    let i = ep.info.addr.byte as int % 128;
    &&& l.len() == 5
    &&& l[0] is EnterCritical
    &&& l[1] is ModifyDoeptsiz
    &&& l[1]->ModifyDoeptsiz_0 == i
    &&& l[1]->ModifyDoeptsiz_1.xfrsiz == Some(ep.info.max_packet_size as u32)
    &&& l[1]->ModifyDoeptsiz_1.pktcnt == Some(1u16)
    &&& l[1]->ModifyDoeptsiz_1.rxdpid_stupcnt is None
    &&& l[2] == Action::WriteDoepdma(i as usize, addr as u32)
    &&& l[3] is ModifyDoepctl
    &&& l[3]->ModifyDoepctl_0 == i
    &&& starts_transfer(l[3]->ModifyDoepctl_1)
    &&& l[4] is ExitCritical
}

/// Whether a list lets the core receive one packet into its FIFO, in a critical section: the size of
/// one packet, for an isochronous endpoint the parity of the frame, and then NAK cleared.
pub open spec fn arms_fifo(l: Seq<Action>, ep: Endpoint<Out>) -> bool {
    let i = ep.info.addr.byte as int % 128;
    let n = l.len() as int;
    &&& n == if ep.info.ep_type is Isochronous {
        5int
    } else {
        4
    }
    &&& l[0] is EnterCritical
    &&& l[1] is ModifyDoeptsiz
    &&& l[1]->ModifyDoeptsiz_0 == i
    &&& l[1]->ModifyDoeptsiz_1.xfrsiz == Some(ep.info.max_packet_size as u32)
    &&& l[1]->ModifyDoeptsiz_1.pktcnt == Some(1u16)
    &&& l[1]->ModifyDoeptsiz_1.rxdpid_stupcnt is None
    &&& ep.info.ep_type is Isochronous ==> l[2] == Action::Probe(
        Probe::FrameNumber(Direction::Out, i as usize),
    )
    &&& l[n - 2] is ModifyDoepctl
    &&& l[n - 2]->ModifyDoepctl_0 == i
    &&& l[n - 2]->ModifyDoepctl_1.cnak == Some(true)
    &&& l[n - 2]->ModifyDoepctl_1.epena is None
    &&& l[n - 2]->ModifyDoepctl_1.snak is None
    &&& l[n - 2]->ModifyDoepctl_1.epdis is None
    &&& l[n - 2]->ModifyDoepctl_1.usbaep is None
    &&& leaves_setup(l[n - 2]->ModifyDoepctl_1)
    &&& l[n - 1] is ExitCritical
}

/// Beginning to read sets up a transfer exactly where DMA is in use and no packet waits; the size is
/// kept for when it completes. Else nothing is done.
pub proof fn law_reading_begins<const N: usize>(
    ep: Endpoint<Out>,
    state: &mut State<N>,
    r: Vec<Action>,
)
    requires
        call_ensures(Endpoint::<Out>::read::<N>, (&ep, state), r),
        ep.info.addr.byte as int % 128 < N,
    ensures
        ({
            let i = ep.info.addr.byte as int % 128;
            let sets_up = ep.dma_enable && old(state).ep_states@[i].out_size == 0xFFFF;
            &&& !sets_up ==> r@.len() == 0 && *final(state) == *old(state)
            &&& sets_up ==> {
                &&& arms_dma(r@, ep, old(state).ep_states@[i].out_buffer.addr)
                &&& only_reception_differs(*final(state), *old(state), i)
                &&& final(state).ep_states@[i].out_size == 0xFFFF
                &&& final(state).ep_states@[i].out_xfer_size == ep.info.max_packet_size
            }
        }),
{
}

/// What comes of waiting for a packet: a disabled endpoint fails, whether or not a packet waits; an
/// enabled one without a packet waits on; a packet that is too long for the buffer fails; any other
/// can be taken, with its length. These are all the cases.
pub proof fn law_waiting_for_a_packet<const N: usize>(
    ep: Endpoint<Out>,
    state: State<N>,
    doepctl: EpStatus,
    buf_len: usize,
    r: ReadStep,
)
    requires
        call_ensures(Endpoint::<Out>::read_poll::<N>, (&ep, &state, doepctl, buf_len), r),
        ep.info.addr.byte as int % 128 < N,
    ensures
        ({
            let size = state.ep_states@[ep.info.addr.byte as int % 128].out_size;
            &&& r.poll == ReadPoll::Failed(EndpointError::Disabled) <==> !doepctl.usbaep
            &&& r.poll is Pending <==> doepctl.usbaep && size == 0xFFFF
            &&& r.poll == ReadPoll::Failed(EndpointError::BufferOverflow) <==> doepctl.usbaep
                && size != 0xFFFF && size > buf_len
            &&& r.poll is Packet <==> doepctl.usbaep && size != 0xFFFF && size <= buf_len
            &&& r.poll is Packet ==> r.poll->Packet_0 == size
        }),
{
}

/// Before a packet that the DMA engine received is taken, the cache is invalidated for just that
/// packet; in no other case is there anything to do.
pub proof fn law_received_packet_is_read_behind_the_cache<const N: usize>(
    ep: Endpoint<Out>,
    state: State<N>,
    doepctl: EpStatus,
    buf_len: usize,
    r: ReadStep,
)
    requires
        call_ensures(Endpoint::<Out>::read_poll::<N>, (&ep, &state, doepctl, buf_len), r),
        ep.info.addr.byte as int % 128 < N,
    ensures
        ({
            let entry = state.ep_states@[ep.info.addr.byte as int % 128];
            let needed = r.poll is Packet && ep.dma_enable && entry.out_size > 0;
            &&& !needed ==> r.actions@.len() == 0
            &&& needed ==> r.actions@.len() == 1 && r.actions@[0] == (Action::InvalidateCache {
                addr: entry.out_buffer.addr,
                len: entry.out_size as usize,
            })
        }),
{
}

/// Taking a packet copies it, byte by byte, to the start of the buffer and changes nothing behind
/// it; the endpoint's buffer is free again, and the endpoint may receive one packet more. Nothing
/// else of the state changes.
pub proof fn law_packet_is_taken<const N: usize>(
    ep: Endpoint<Out>,
    state: &mut State<N>,
    memory: &[u8],
    buf: &mut [u8],
    r: Vec<Action>,
)
    requires
        call_ensures(Endpoint::<Out>::read_packet::<N>, (&ep, state, memory, buf), r),
        ep.info.addr.byte as int % 128 < N,
        old(state).ep_states@[ep.info.addr.byte as int % 128].wf(memory@.len() as int),
        old(state).ep_states@[ep.info.addr.byte as int % 128].out_size != 0xFFFF,
        old(state).ep_states@[ep.info.addr.byte as int % 128].out_size <= old(buf)@.len(),
    ensures
        ({
            let i = ep.info.addr.byte as int % 128;
            let entry = old(state).ep_states@[i];
            &&& final(buf)@.len() == old(buf)@.len()
            &&& forall|k: int|
                0 <= k < entry.out_size ==> #[trigger] final(buf)@[k]
                    == memory@[entry.out_buffer.offset + k]
            &&& forall|k: int|
                entry.out_size <= k < old(buf)@.len() ==> #[trigger] final(buf)@[k] == old(buf)@[k]
            &&& only_reception_differs(*final(state), *old(state), i)
            &&& final(state).ep_states@[i].out_size == 0xFFFF
            &&& ep.dma_enable ==> final(state).ep_states@[i].out_xfer_size
                == ep.info.max_packet_size
            &&& !ep.dma_enable ==> final(state).ep_states@[i].out_xfer_size == entry.out_xfer_size
            &&& ep.dma_enable ==> arms_dma(r@, ep, entry.out_buffer.addr)
            &&& !ep.dma_enable ==> arms_fifo(r@, ep)
        }),
{
    assert(parity_probe(Direction::Out, ep.info).len() <= 1);
}

// Sending
/// A packet that is longer than the endpoint allows is refused, and no other is.
pub proof fn law_long_packets_are_refused(
    ep: Endpoint<In>,
    len: usize,
    r: Result<WriteStage, EndpointError>,
)
    requires
        call_ensures(Endpoint::<In>::write, (&ep, len), r),
    ensures
        r is Err <==> len > ep.info.max_packet_size,
        r is Err ==> r->Err_0 is BufferOverflow,
        r is Ok ==> r->Ok_0 is Previous,
{
}

/// Sending fails where the endpoint is disabled, waits while a transfer is active on an enabled one,
/// and else goes on: to the space in the FIFO exactly for data that goes through it.
pub proof fn law_previous_transfer_is_awaited(
    ep: Endpoint<In>,
    len: usize,
    diepctl: EpStatus,
    r: WritePoll,
)
    requires
        call_ensures(Endpoint::<In>::write_previous, (&ep, len, diepctl), r),
    ensures
        r == WritePoll::Failed(EndpointError::Disabled) <==> !diepctl.usbaep,
        r is Pending <==> diepctl.usbaep && diepctl.epena,
        r == WritePoll::Next(WriteStage::Space) <==> diepctl.usbaep && !diepctl.epena
            && !ep.dma_enable && len > 0,
        r == WritePoll::Next(WriteStage::Transfer) <==> diepctl.usbaep && !diepctl.epena && (
        ep.dma_enable || len == 0),
{
}

/// A packet waits for the FIFO exactly while the free words cannot hold its bytes, and then has the
/// interrupt of its own endpoint enabled, in a critical section, that comes when the FIFO is empty.
pub proof fn law_fifo_space_is_awaited(ep: Endpoint<In>, len: usize, ineptfsav: u16, r: WriteStep)
    requires
        call_ensures(Endpoint::<In>::write_space, (&ep, len, ineptfsav), r),
    ensures
        r.poll is Pending <==> len > 4 * ineptfsav,
        r.poll == WritePoll::Next(WriteStage::Transfer) <==> len <= 4 * ineptfsav,
        r.poll is Pending ==> {
            &&& r.actions@.len() == 3
            &&& r.actions@[0] is EnterCritical
            &&& r.actions@[1] == Action::ModifyDiepempmsk(
                (ep.info.addr.byte as int % 128) as usize,
                true,
            )
            &&& r.actions@[2] is ExitCritical
        },
        r.poll !is Pending ==> r.actions@.len() == 0,
{
}

/// The transfer size that is written before the endpoint is enabled is the number of bytes of the
/// packet, for one packet, whichever way the packet goes.
pub proof fn law_transfer_size_is_packet_length(
    ep: Endpoint<In>,
    order: ByteOrder,
    buf: &[u8],
    buf_addr: usize,
    r: WriteStep,
)
    requires
        call_ensures(Endpoint::<In>::write_transfer, (&ep, order, buf, buf_addr), r),
        buf@.len() <= ep.info.max_packet_size,
    ensures
        exists|k: int|
            0 <= k < r.actions@.len() && (#[trigger] r.actions@[k]) is WriteDieptsiz,
        forall|k: int|
            0 <= k < r.actions@.len() && (#[trigger] r.actions@[k]) is WriteDieptsiz ==> {
                let size = r.actions@[k]->WriteDieptsiz_1;
                &&& r.actions@[k]->WriteDieptsiz_0 == ep.info.addr.byte as int % 128
                &&& size.xfrsiz == buf@.len()
                &&& size.pktcnt == 1
                &&& size.mcnt == 1
            },
        forall|k: int, j: int|
            0 <= k < r.actions@.len() && 0 <= j < r.actions@.len() && (#[trigger] r.actions@[k])
                is WriteDieptsiz && ((#[trigger] r.actions@[j]) is ModifyDiepctl || r.actions@[j]
                is Probe || r.actions@[j] is WriteFifo) ==> k < j,
{
    let a = r.actions@;
    assert(parity_probe(Direction::In, ep.info).len() <= 1);
    if ep.dma_enable && buf@.len() > 0 {
        assert(a[2] is WriteDieptsiz);
    } else {
        assert(a[1] is WriteDieptsiz);
    }
}

/// A packet that goes by DMA is cleaned from the cache first, all of it and nothing else, unless it
/// is empty. In one critical section the engine is then given its size and its place, an isochronous
/// endpoint its frame, and the endpoint is enabled last. The engine's end is awaited.
pub proof fn law_packet_goes_by_dma(
    ep: Endpoint<In>,
    order: ByteOrder,
    buf: &[u8],
    buf_addr: usize,
    r: WriteStep,
)
    requires
        call_ensures(Endpoint::<In>::write_transfer, (&ep, order, buf, buf_addr), r),
        ep.dma_enable,
    ensures
        r.poll == WritePoll::Next(WriteStage::Completion),
        ({
            let a = r.actions@;
            let i = ep.info.addr.byte as int % 128;
            let c: int = if buf@.len() > 0 {
                1
            } else {
                0
            };
            let p: int = if ep.info.ep_type is Isochronous {
                1
            } else {
                0
            };
            &&& a.len() == c + p + 5
            &&& c == 1 ==> a[0] == (Action::CleanCache { addr: buf_addr, len: buf@.len() as usize })
            &&& a[c] is EnterCritical
            &&& a[c + 1] is WriteDieptsiz
            &&& a[c + 2] is WriteDiepdma && a[c + 2]->WriteDiepdma_0 == i
            &&& c == 1 ==> a[c + 2]->WriteDiepdma_1 == buf_addr as u32
            &&& c == 0 ==> a[c + 2]->WriteDiepdma_1 == 0x0020_0000
            &&& p == 1 ==> a[c + 3] == Action::Probe(
                Probe::FrameNumber(Direction::In, i as usize),
            )
            &&& a[c + p + 3] is ModifyDiepctl && a[c + p + 3]->ModifyDiepctl_0 == i
            &&& starts_transfer(a[c + p + 3]->ModifyDiepctl_1)
            &&& a[c + p + 4] is ExitCritical
        }),
{
    assert(parity_probe(Direction::In, ep.info).len() <= 1);
}

/// A packet that goes through the FIFO does so in one critical section: its size, for an
/// isochronous endpoint its frame, the endpoint enabled, and then its words to the endpoint's own
/// FIFO, as few as hold it. The packet is then done with.
pub proof fn law_packet_goes_through_the_fifo(
    ep: Endpoint<In>,
    order: ByteOrder,
    buf: &[u8],
    buf_addr: usize,
    r: WriteStep,
)
    requires
        call_ensures(Endpoint::<In>::write_transfer, (&ep, order, buf, buf_addr), r),
        !ep.dma_enable,
    ensures
        r.poll == WritePoll::Next(WriteStage::Done),
        ({
            let a = r.actions@;
            let i = ep.info.addr.byte as int % 128;
            let p: int = if ep.info.ep_type is Isochronous {
                1
            } else {
                0
            };
            let words = a.len() - p - 4;
            &&& buf@.len() <= 4 * words < buf@.len() + 4
            &&& a[0] is EnterCritical
            &&& a[1] is WriteDieptsiz
            &&& p == 1 ==> a[2] == Action::Probe(Probe::FrameNumber(Direction::In, i as usize))
            &&& a[p + 2] is ModifyDiepctl && a[p + 2]->ModifyDiepctl_0 == i
            &&& starts_transfer(a[p + 2]->ModifyDiepctl_1)
            &&& forall|k: int|
                p + 3 <= k < a.len() - 1 ==> (#[trigger] a[k]) is WriteFifo && a[k]->WriteFifo_0
                    == i
            &&& a.last() is ExitCritical
        }),
{
    assert(parity_probe(Direction::In, ep.info).len() <= 1);
    let a = r.actions@;
    let w = fifo_writes((ep.info.addr.byte as int % 128) as usize, packed(order, buf@));
    let p: int = if ep.info.ep_type is Isochronous {
        1
    } else {
        0
    };
    assert forall|k: int| p + 3 <= k < a.len() - 1 implies a[k] == w[k - p - 3] by {}
}

/// The words that go to the FIFO hold the packet: each byte of it stands where the machine keeps it
/// in its word, and what the last word has left over is zero.
pub proof fn law_fifo_words_hold_the_packet(
    ep: Endpoint<In>,
    order: ByteOrder,
    buf: &[u8],
    buf_addr: usize,
    r: WriteStep,
    k: int,
)
    requires
        call_ensures(Endpoint::<In>::write_transfer, (&ep, order, buf, buf_addr), r),
        !ep.dma_enable,
        0 <= k < 4 * word_count(buf@.len() as int),
    ensures
        ({
            let first: int = if ep.info.ep_type is Isochronous {
                4
            } else {
                3
            };
            let action = r.actions@[first + k / 4];
            &&& action is WriteFifo
            &&& bytes_of(order, action->WriteFifo_1)[k % 4] == if k < buf@.len() {
                buf@[k]
            } else {
                0
            }
        }),
{
    assert(parity_probe(Direction::In, ep.info).len() <= 1);
    let data = buf@;
    let words = packed(order, data);
    let w = fifo_writes((ep.info.addr.byte as int % 128) as usize, words);
    let first: int = if ep.info.ep_type is Isochronous {
        4
    } else {
        3
    };
    let j = k / 4;
    assert(r.actions@[first + j] == w[j]);
    let b = seq![
        padded(data, 4 * j),
        padded(data, 4 * j + 1),
        padded(data, 4 * j + 2),
        padded(data, 4 * j + 3),
    ];
    lemma_bytes_of_word(order, b);
    assert(words[j] == word_of(order, b));
    assert(b[k % 4] == padded(data, 4 * j + k % 4));
}

/// A transfer by DMA is over exactly where the core has disabled the endpoint, or the endpoint is no
/// longer active; until then it is awaited.
pub proof fn law_completion_is_awaited(ep: Endpoint<In>, diepctl: EpStatus, r: WritePoll)
    requires
        call_ensures(Endpoint::<In>::write_completion, (&ep, diepctl), r),
    ensures
        r is Pending <==> diepctl.epena && diepctl.usbaep,
        r == WritePoll::Next(WriteStage::Done) <==> !diepctl.epena || !diepctl.usbaep,
{
}

// The control pipe
/// The DMA engine is made ready for SETUP packets, as [`arm_setup`] does it for the pipe's endpoint
/// and the SETUP buffer, exactly where DMA is in use and the endpoint is not enabled.
pub proof fn law_setup_is_prepared<const N: usize>(
    pipe: ControlPipe,
    state: State<N>,
    epena: bool,
    r: Vec<Action>,
    armed: Vec<Action>,
)
    requires
        call_ensures(ControlPipe::setup_prepare::<N>, (&pipe, &state, epena), r),
        call_ensures(
            arm_setup,
            (
                (pipe.ep_out.info.addr.byte as int % 128) as usize,
                state.setup_dma_buf as u32,
            ),
            armed,
        ),
    ensures
        pipe.ep_out.dma_enable && !epena ==> r@ == armed@,
        !pipe.ep_out.dma_enable || epena ==> r@.len() == 0,
{
}

/// A SETUP packet is handed out exactly where one is ready, as its two words have its bytes, and
/// only once. In FIFO mode the endpoint is then let have three more and NAK is cleared; with DMA
/// that has been done. Nothing else of the state changes.
pub proof fn law_setup_packet_is_handed_out_once<const N: usize>(
    pipe: ControlPipe,
    state: &mut State<N>,
    r: SetupStep,
)
    requires
        call_ensures(ControlPipe::setup::<N>, (&pipe, state), r),
    ensures
        r.packet is Some <==> old(state).cp_state.setup_ready,
        !final(state).cp_state.setup_ready,
        final(state).cp_state.setup_data == old(state).cp_state.setup_data,
        only_setup_differs(*final(state), *old(state)),
        r.packet is Some ==> {
            &&& r.packet->0@.len() == 8
            &&& r.packet->0@.subrange(0, 4) == bytes_of(
                old(state).byte_order,
                old(state).cp_state.setup_data@[0],
            )
            &&& r.packet->0@.subrange(4, 8) == bytes_of(
                old(state).byte_order,
                old(state).cp_state.setup_data@[1],
            )
        },
        r.packet is None || pipe.ep_out.dma_enable ==> r.actions@.len() == 0,
        r.packet is Some && !pipe.ep_out.dma_enable ==> {
            let i = pipe.ep_out.info.addr.byte as int % 128;
            let size = r.actions@[0]->ModifyDoeptsiz_1;
            let c = r.actions@[1]->ModifyDoepctl_1;
            &&& r.actions@.len() == 2
            &&& r.actions@[0] is ModifyDoeptsiz && r.actions@[0]->ModifyDoeptsiz_0 == i
            &&& size.rxdpid_stupcnt == Some(3u8) && size.pktcnt is None && size.xfrsiz is None
            &&& r.actions@[1] is ModifyDoepctl && r.actions@[1]->ModifyDoepctl_0 == i
            &&& c.cnak == Some(true)
            &&& c.epena is None && c.snak is None && c.epdis is None && c.usbaep is None
            &&& leaves_setup(c)
        },
{
    if r.packet is Some {
        let lo = bytes_of(old(state).byte_order, old(state).cp_state.setup_data@[0]);
        let hi = bytes_of(old(state).byte_order, old(state).cp_state.setup_data@[1]);
        assert(r.packet->0@.subrange(0, 4) =~= lo);
        assert(r.packet->0@.subrange(4, 8) =~= hi);
    }
}

/// A packet of the data stage that could not be sent fails with its error; after the last one the
/// status is awaited, and after any other nothing.
pub proof fn law_data_stage_ends_with_status(
    pipe: ControlPipe,
    sent: Result<(), EndpointError>,
    last: bool,
    r: DataInNext,
)
    requires
        call_ensures(ControlPipe::data_in, (&pipe, sent, last), r),
    ensures
        r is Failed <==> sent is Err,
        r is Failed ==> r->Failed_0 == sent->Err_0,
        r is AwaitStatus <==> sent is Ok && last,
        r is Done <==> sent is Ok && !last,
{
}

/// A control read succeeds exactly where its status was received, and else fails with that error.
pub proof fn law_status_decides(
    pipe: ControlPipe,
    status: Result<usize, EndpointError>,
    r: Result<(), EndpointError>,
)
    requires
        call_ensures(ControlPipe::data_in_status, (&pipe, status), r),
    ensures
        r is Ok <==> status is Ok,
        r is Err ==> r->Err_0 == status->Err_0,
{
}

/// Whether an update of a control register stalls the endpoint, and does nothing else.
pub open spec fn stalls(c: Epctl) -> bool {
    &&& c.stall == Some(true)
    &&& c.mpsiz is None && c.usbaep is None && c.eptyp is None && c.txfnum is None && c.cnak is None
        && c.snak is None && c.sd0pid_sevnfrm is None && c.sd1pid_soddfrm is None
        && c.epdis is None && c.epena is None
}

/// Rejecting a request stalls both of the pipe's endpoints, IN first, and does nothing else.
pub proof fn law_rejecting_stalls_both(pipe: ControlPipe, r: Vec<Action>)
    requires
        call_ensures(ControlPipe::reject, (&pipe,), r),
    ensures
        r@.len() == 2,
        r@[0] is ModifyDiepctl,
        r@[0]->ModifyDiepctl_0 == pipe.ep_in.info.addr.byte as int % 128,
        stalls(r@[0]->ModifyDiepctl_1),
        r@[1] is ModifyDoepctl,
        r@[1]->ModifyDoepctl_0 == pipe.ep_out.info.addr.byte as int % 128,
        stalls(r@[1]->ModifyDoepctl_1),
{
}

/// The bus address is changed to the one asked for, in a critical section, and nothing else of the
/// register; the packet size of the pipe is the one it was made with.
pub proof fn law_address_is_set(pipe: ControlPipe, addr: u8, r: Vec<Action>, size: usize)
    requires
        call_ensures(ControlPipe::accept_set_address, (&pipe, addr), r),
        call_ensures(ControlPipe::max_packet_size, (&pipe,), size),
    ensures
        r@.len() == 3,
        r@[0] is EnterCritical,
        r@[1] is ModifyDcfg,
        r@[1]->ModifyDcfg_0.dad == Some(addr),
        r@[1]->ModifyDcfg_0.pfivl is None,
        r@[1]->ModifyDcfg_0.dspd is None,
        r@[1]->ModifyDcfg_0.xcvrdly is None,
        r@[2] is ExitCritical,
        size == pipe.max_packet_size,
{
}

} // verus!
