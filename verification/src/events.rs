//! What the operations of the bus come to.
//!
//! Each law speaks of what an operation returns and leaves behind, for all that it may be given.
use crate::action::{each, Action, Probe};
use crate::bus::{
    abort_in, arm_setup, cancel_transfer, turnaround, Bus, PollOutcome, PollStep,
};
use crate::config::PhyType;
use crate::laws::lemma_each_contains;
use crate::registers::{Dspd, EpStatus, Epctl, Eptyp, Gintsts, Gotgint, Pfivl};
use crate::sections::lemma_each_all;
use crate::state::State;
use crate::table::{
    lemma_irq_mask_bits, lemma_total_words_monotonic, lemma_total_words_step, total_words,
    EndpointData,
};
use crate::types::{
    Direction, EndpointAddress, EndpointType, Event, Unsupported, MAX_ENDPOINTS,
};
use vstd::prelude::*;

verus! {

/// Whether an update of a control register touches at most the fields that control a transfer: it
/// leaves the packet size, the type, the FIFO, the frame parity and the stall as they are.
pub open spec fn leaves_setup(c: Epctl) -> bool {
    &&& c.mpsiz is None
    &&& c.eptyp is None
    &&& c.stall is None
    &&& c.txfnum is None
    &&& c.sd0pid_sevnfrm is None
    &&& c.sd1pid_soddfrm is None
}

/// Cancelling touches the endpoint it is asked to and no other: where a transfer is active, the
/// endpoint is disabled with NAK set; else nothing is done.
pub proof fn law_cancelling_stops_a_transfer(
    dir: Direction,
    index: usize,
    epena: bool,
    r: Vec<Action>,
)
    requires
        call_ensures(cancel_transfer, (dir, index, epena), r),
    ensures
        !epena ==> r@.len() == 0,
        epena ==> {
            let c = if dir is In {
                r@[0]->ModifyDiepctl_1
            } else {
                r@[0]->ModifyDoepctl_1
            };
            &&& r@.len() == 1
            &&& dir is In ==> r@[0] is ModifyDiepctl && r@[0]->ModifyDiepctl_0 == index
            &&& dir is Out ==> r@[0] is ModifyDoepctl && r@[0]->ModifyDoepctl_0 == index
            &&& c.snak == Some(true) && c.epdis == Some(true)
            &&& c.cnak is None && c.epena is None && c.usbaep is None
            &&& leaves_setup(c)
        },
{
}

/// A transmission in progress is stopped with NAK set, and its end awaited up to a thousand times;
/// else nothing is done.
pub proof fn law_aborting_stops_a_transmission(index: usize, epena: bool, r: Vec<Action>)
    requires
        call_ensures(abort_in, (index, epena), r),
    ensures
        !epena ==> r@.len() == 0,
        epena ==> {
            let c = r@[0]->ModifyDiepctl_1;
            &&& r@.len() == 2
            &&& r@[0] is ModifyDiepctl && r@[0]->ModifyDiepctl_0 == index
            &&& c.snak == Some(true) && c.epdis == Some(true)
            &&& c.cnak is None && c.epena is None && c.usbaep is None
            &&& leaves_setup(c)
            &&& r@[1] == Action::WaitInDisabled(index, 1000)
        },
{
}

/// The turnaround time is set, and nothing else of the register.
pub proof fn law_turnaround_is_set(trdt: u8, r: Vec<Action>)
    requires
        call_ensures(turnaround, (trdt,), r),
    ensures
        r@.len() == 1,
        r@[0] is ModifyGusbcfg,
        r@[0]->ModifyGusbcfg_0.trdt == Some(trdt),
        r@[0]->ModifyGusbcfg_0.fdmod is None,
        r@[0]->ModifyGusbcfg_0.physel is None,
{
}

/// The DMA engine is given the buffer before the endpoint is enabled, for up to three SETUP packets
/// of eight bytes.
pub proof fn law_setup_reception_is_armed(index: usize, addr: u32, r: Vec<Action>)
    requires
        call_ensures(arm_setup, (index, addr), r),
    ensures
        r@.len() == 3,
        r@[0] is WriteDoeptsiz,
        r@[0]->WriteDoeptsiz_0 == index,
        r@[0]->WriteDoeptsiz_1.pktcnt == Some(1u16),
        r@[0]->WriteDoeptsiz_1.xfrsiz == Some(24u32),
        r@[0]->WriteDoeptsiz_1.rxdpid_stupcnt == Some(3u8),
        r@[1] == Action::WriteDoepdma(index, addr),
        r@[2] is ModifyDoepctl,
        r@[2]->ModifyDoepctl_0 == index,
        ({
            let c = r@[2]->ModifyDoepctl_1;
            &&& c.cnak == Some(true) && c.epena == Some(true)
            &&& c.snak is None && c.epdis is None && c.usbaep is None
            &&& leaves_setup(c)
        }),
{
}

/// Every interrupt of the bus and of the endpoints is unmasked, and that of the receive queue unless
/// the DMA engine empties it.
pub proof fn law_all_interrupts_are_restored<const N: usize>(bus: Bus<N>, r: Vec<Action>)
    requires
        call_ensures(Bus::<N>::restore_irqs, (&bus,), r),
    ensures
        r@.len() == 1,
        r@[0] is WriteGintmsk,
        ({
            let m = r@[0]->WriteGintmsk_0;
            &&& m.usbrst && m.enumdnem && m.usbsuspm && m.wuim && m.srqim && m.otgint
            &&& m.iepint && m.oepint
            &&& m.rxflvlm == !(bus.instance.features.dma && bus.config.dma_enable)
        }),
{
}

/// The device is forced into device mode, with the internal full-speed PHY selected exactly where
/// that is the PHY.
pub proof fn law_configured_as_device<const N: usize>(bus: Bus<N>, r: Vec<Action>)
    requires
        call_ensures(Bus::<N>::configure_as_device, (&bus,), r),
    ensures
        r@.len() == 1,
        r@[0] is WriteGusbcfg,
        r@[0]->WriteGusbcfg_0.fdmod == Some(true),
        r@[0]->WriteGusbcfg_0.physel == Some(bus.instance.phy_type is InternalFullSpeed),
        r@[0]->WriteGusbcfg_0.trdt is None,
{
}

/// The first cores power the transceiver of an internal PHY, and sense VBUS exactly where VBUS
/// detection is asked for.
pub proof fn law_first_cores_are_configured<const N: usize>(bus: Bus<N>, r: Vec<Action>)
    requires
        call_ensures(Bus::<N>::config_v1, (&bus,), r),
        bus.instance.phy_type !is InternalHighSpeed,
    ensures
        r@.len() == 2,
        r@[0] is ModifyGccfgV1,
        r@[1] is ModifyGccfgV1,
        ({
            let a = r@[0]->ModifyGccfgV1_0;
            let b = r@[1]->ModifyGccfgV1_0;
            &&& a.pwrdwn == Some(bus.instance.phy_type is InternalFullSpeed)
            &&& a.novbussens is None && a.vbusasen is None && a.vbusbsen is None
                && a.sofouten is None
            &&& b.pwrdwn is None
            &&& b.novbussens == Some(!bus.config.vbus_detection)
            &&& b.vbusbsen == Some(bus.config.vbus_detection)
            &&& b.vbusasen == Some(false)
            &&& b.sofouten == Some(false)
        }),
{
}

/// The second and third cores power the internal PHY that they have, detect VBUS exactly where that
/// is asked for, and else take the session for valid.
pub proof fn law_middle_cores_are_configured<const N: usize>(bus: Bus<N>, r: Vec<Action>)
    requires
        call_ensures(Bus::<N>::config_v2v3, (&bus,), r),
    ensures
        r@.len() == 3,
        r@[0] is ModifyGccfgV2,
        r@[1] is ModifyGccfgV2,
        r@[2] is ModifyGotgctl,
        ({
            let a = r@[0]->ModifyGccfgV2_0;
            let b = r@[1]->ModifyGccfgV2_0;
            let c = r@[2]->ModifyGotgctl_0;
            &&& a.pwrdwn == Some(bus.instance.phy_type is InternalFullSpeed)
            &&& a.phyhsen == Some(bus.instance.phy_type is InternalHighSpeed)
            &&& a.vbden is None
            &&& b.pwrdwn is None && b.phyhsen is None
            &&& b.vbden == Some(bus.config.vbus_detection)
            &&& c.bvaloen == Some(!bus.config.vbus_detection)
            &&& c.bvaloval == Some(true)
        }),
{
}

/// The last cores detect VBUS exactly where that is asked for, and else take it for valid: the
/// internal high-speed PHY by an override of its own, any other by the one for the session.
pub proof fn law_last_cores_are_configured<const N: usize>(bus: Bus<N>, r: Vec<Action>)
    requires
        call_ensures(Bus::<N>::config_v5, (&bus,), r),
    ensures
        r@.last() is ModifyGccfgV3,
        r@.last()->ModifyGccfgV3_0.vbden == Some(bus.config.vbus_detection),
        bus.instance.phy_type is InternalHighSpeed ==> {
            &&& r@.len() == 1
            &&& r@[0]->ModifyGccfgV3_0.vbvaloven == Some(!bus.config.vbus_detection)
            &&& r@[0]->ModifyGccfgV3_0.vbvaloval == Some(!bus.config.vbus_detection)
        },
        bus.instance.phy_type !is InternalHighSpeed ==> {
            &&& r@.len() == 2
            &&& r@[0] is ModifyGotgctl
            &&& r@[0]->ModifyGotgctl_0.bvaloen == Some(!bus.config.vbus_detection)
            &&& r@[0]->ModifyGotgctl_0.bvaloval == Some(!bus.config.vbus_detection)
            &&& r@[1]->ModifyGccfgV3_0.vbvaloven is None
            &&& r@[1]->ModifyGccfgV3_0.vbvaloval is None
        },
{
}

/// Initialization: the AR8030's core is reset first, each wait being bounded, and no other core is.
/// The device is off the bus from then until the very end. In between the core is given the speed
/// of its PHY, the interrupts, and the DMA engine exactly where that is in use; pending interrupts
/// are cleared once they are unmasked, and let through after that.
pub proof fn law_core_is_initialized<const N: usize>(
    bus: Bus<N>,
    state: &mut State<N>,
    r: Vec<Action>,
)
    requires
        call_ensures(Bus::<N>::init, (&bus, state), r),
    ensures
        ({
            let n: int = if bus.instance.features.ar8030 {
                3
            } else {
                0
            };
            let dma = bus.instance.features.dma && bus.config.dma_enable;
            let high = bus.instance.phy_type is InternalHighSpeed || bus.instance.phy_type
                is ExternalHighSpeed;
            &&& r@.len() == n + 8
            &&& n == 3 ==> {
                &&& r@[0] == Action::WaitAhbIdle(200000)
                &&& r@[1] is ModifyGrstctl && r@[1]->ModifyGrstctl_0.csrst == Some(true)
                &&& r@[1]->ModifyGrstctl_0.rxfflsh is None
                &&& r@[1]->ModifyGrstctl_0.txfflsh is None
                &&& r@[1]->ModifyGrstctl_0.txfnum is None
                &&& r@[2] == Action::WaitCoreReset(200000)
            }
            &&& r@[n] is WriteDctl && r@[n]->WriteDctl_0.sdis == Some(true)
            &&& r@[n]->WriteDctl_0.cginak is None
            &&& r@[n + 1] is WriteDcfg
            &&& r@[n + 1]->WriteDcfg_0.pfivl == Some(Pfivl::FrameInterval80)
            &&& r@[n + 1]->WriteDcfg_0.dspd == Some(
                if high {
                    Dspd::HighSpeed
                } else if bus.instance.phy_type is InternalFullSpeed {
                    Dspd::FullSpeedInternal
                } else {
                    Dspd::FullSpeedExternal
                },
            )
            &&& r@[n + 1]->WriteDcfg_0.xcvrdly == Some(true) <==> bus.config.xcvrdly
            &&& r@[n + 1]->WriteDcfg_0.xcvrdly != Some(false)
            &&& r@[n + 1]->WriteDcfg_0.dad is None
            &&& r@[n + 2] == Action::WriteDiepmsk(true)
            &&& r@[n + 3] is WriteDoepmsk
            &&& r@[n + 3]->WriteDoepmsk_0.stupm && r@[n + 3]->WriteDoepmsk_0.xfrcm
            &&& r@[n + 3]->WriteDoepmsk_0.epdm && r@[n + 3]->WriteDoepmsk_0.otepdm
            &&& r@[n + 4] is WriteGintmsk
            &&& r@[n + 4]->WriteGintmsk_0.usbrst && r@[n + 4]->WriteGintmsk_0.enumdnem
            &&& r@[n + 4]->WriteGintmsk_0.rxflvlm == !dma
            &&& r@[n + 5] == Action::WriteGintstsBits(0xFFFF_FFFF)
            &&& r@[n + 6] is WriteGahbcfg
            &&& r@[n + 6]->WriteGahbcfg_0.gint
            &&& r@[n + 6]->WriteGahbcfg_0.dmaen == dma
            &&& dma ==> r@[n + 6]->WriteGahbcfg_0.hbstlen == 4
            &&& !dma ==> r@[n + 6]->WriteGahbcfg_0.hbstlen == 0
            &&& r@[n + 7] is WriteDctl && r@[n + 7]->WriteDctl_0.sdis == Some(false)
            &&& r@[n + 7]->WriteDctl_0.cginak is None
            &&& final(state).dma_enabled <==> (old(state).dma_enabled || dma)
        }),
        final(state).cp_state == old(state).cp_state,
        final(state).ep_states == old(state).ep_states,
        final(state).setup_dma_buf == old(state).setup_dma_buf,
        final(state).byte_order == old(state).byte_order,
{
}

/// The same interrupts are unmasked by the initialization as by every later event.
pub proof fn law_init_restores_all_interrupts<const N: usize>(
    bus: Bus<N>,
    state: &mut State<N>,
    r: Vec<Action>,
    irqs: Vec<Action>,
)
    requires
        call_ensures(Bus::<N>::init, (&bus, state), r),
        call_ensures(Bus::<N>::restore_irqs, (&bus,), irqs),
    ensures
        r@.contains(irqs@[0]),
{
    assert(r@[r@.len() - 4] == irqs@[0]);
}

// FIFOs
/// A transmit FIFO, by the registers that lay it out.
pub struct TxFifo {
    /// The endpoint that it is for.
    pub ep: int,
    /// Its first word.
    pub start: int,
    /// How many words it has.
    pub words: int,
}

/// The transmit FIFO that an action lays out, if it does.
pub open spec fn laid_out(action: Action) -> Option<TxFifo> {
    match action {
        Action::WriteDieptxf0(fifo) => Some(
            TxFifo { ep: 0, start: fifo.sa as int, words: fifo.fd as int },
        ),
        Action::WriteDieptxf(i, fifo) => Some(
            TxFifo { ep: i + 1, start: fifo.sa as int, words: fifo.fd as int },
        ),
        _ => None,
    }
}

/// The FIFOs of the first `n` endpoints lie one behind the other, between the receive FIFO and
/// where the next one will start.
proof fn lemma_fifos_in_order<const N: usize>(bus: Bus<N>, n: int)
    requires
        bus.wf(),
        0 <= n <= bus.instance.endpoint_count,
    ensures
        ({
            let l = each(n, |i: int| bus.tx_fifo(i));
            &&& forall|k: int|
                0 <= k < l.len() ==> {
                    let f = laid_out(#[trigger] l[k]);
                    &&& f is Some
                    &&& 0 <= f->0.ep < n
                    &&& bus.ep_in@[f->0.ep] is Some
                    &&& f->0.words == bus.ep_in@[f->0.ep]->0.fifo_size_words
                    &&& bus.rx_words() <= f->0.start
                    &&& f->0.start + f->0.words <= bus.tx_start(n)
                }
            &&& forall|k: int, m: int|
                0 <= k < m < l.len() ==> {
                    let f = laid_out(#[trigger] l[k]);
                    let g = laid_out(#[trigger] l[m]);
                    f->0.ep < g->0.ep && f->0.start + f->0.words <= g->0.start
                }
        }),
    decreases n,
{
    if n > 0 {
        let f = |i: int| bus.tx_fifo(i);
        let before = each(n - 1, f);
        let l = each(n, f);
        lemma_fifos_in_order(bus, n - 1);
        lemma_total_words_step(bus.ep_in@, n - 1);
        lemma_total_words_monotonic(bus.ep_in@, n - 1);
        lemma_total_words_monotonic(bus.ep_in@, n);
        lemma_total_words_monotonic(bus.ep_out@, 0);
        let last = f(n - 1);
        assert(l == before + last);
        assert(last.len() <= 1);
        assert forall|k: int| 0 <= k < l.len() implies {
            let g = laid_out(#[trigger] l[k]);
            &&& g is Some
            &&& 0 <= g->0.ep < n
            &&& bus.ep_in@[g->0.ep] is Some
            &&& g->0.words == bus.ep_in@[g->0.ep]->0.fifo_size_words
            &&& bus.rx_words() <= g->0.start
            &&& g->0.start + g->0.words <= bus.tx_start(n)
            &&& k < before.len() ==> g->0.ep < n - 1 && g->0.start + g->0.words <= bus.tx_start(
                n - 1,
            )
            &&& k >= before.len() ==> g->0.ep == n - 1 && g->0.start == bus.tx_start(n - 1)
        } by {
            if k < before.len() {
                assert(l[k] == before[k]);
            } else {
                assert(l[k] == last[0]);
            }
        }
        assert forall|k: int, m: int| 0 <= k < m < l.len() implies {
            let a = laid_out(#[trigger] l[k]);
            let b = laid_out(#[trigger] l[m]);
            a->0.ep < b->0.ep && a->0.start + a->0.words <= b->0.start
        } by {
            assert(l[k] == before[k]);
            if m < before.len() {
                assert(l[m] == before[m]);
            }
        }
    }
}

/// Where the FIFOs stand in the list that lays them out.
proof fn lemma_fifo_list<const N: usize>(bus: Bus<N>, r: Vec<Action>)
    requires
        call_ensures(Bus::<N>::init_fifo, (&bus,), r),
        bus.wf(),
    ensures
        ({
            let fifos = each(bus.instance.endpoint_count as int, |i: int| bus.tx_fifo(i));
            &&& r@.len() == fifos.len() + 5
            &&& r@[0] is EnterCritical
            &&& r@[1] is ModifyGrxfsiz
            &&& r@[1]->ModifyGrxfsiz_0 == bus.rx_words()
            &&& forall|k: int| 0 <= k < fifos.len() ==> r@[k + 2] == #[trigger] fifos[k]
            &&& forall|k: int|
                0 <= k < r@.len() && laid_out(#[trigger] r@[k]) is Some ==> 2 <= k < 2
                    + fifos.len() && r@[k] == fifos[k - 2]
            &&& bus.tx_start(bus.instance.endpoint_count as int) <= bus.instance.fifo_depth_words
        }),
{
    let count = bus.instance.endpoint_count as int;
    lemma_total_words_monotonic(bus.ep_in@, count);
    lemma_total_words_monotonic(bus.ep_out@, 0);
    lemma_total_words_monotonic(bus.ep_in@, 0);
}

/// On the registers that are written: every transmit FIFO starts at or behind the size that the
/// receive FIFO is given, and ends within the depth of the hardware; no two of them overlap. Each
/// belongs to an allocated endpoint, no two to the same one, and has the words set aside for it.
pub proof fn law_fifos_do_not_overlap<const N: usize>(bus: Bus<N>, r: Vec<Action>)
    requires
        call_ensures(Bus::<N>::init_fifo, (&bus,), r),
        bus.wf(),
    ensures
        r@[1] is ModifyGrxfsiz,
        forall|k: int|
            0 <= k < r@.len() && laid_out(#[trigger] r@[k]) is Some ==> {
                let fifo = laid_out(r@[k])->0;
                &&& r@[1]->ModifyGrxfsiz_0 <= fifo.start
                &&& fifo.start + fifo.words <= bus.instance.fifo_depth_words
                &&& 0 <= fifo.ep < bus.instance.endpoint_count
                &&& bus.ep_in@[fifo.ep] is Some
                &&& fifo.words == bus.ep_in@[fifo.ep]->0.fifo_size_words
            },
        forall|k: int, m: int|
            0 <= k < m < r@.len() && laid_out(#[trigger] r@[k]) is Some && laid_out(
                #[trigger] r@[m],
            ) is Some ==> {
                let fifo = laid_out(r@[k])->0;
                let next = laid_out(r@[m])->0;
                &&& fifo.start + fifo.words <= next.start
                &&& fifo.ep != next.ep
            },
{
    let count = bus.instance.endpoint_count as int;
    let fifos = each(count, |i: int| bus.tx_fifo(i));
    lemma_fifos_in_order(bus, count);
    lemma_fifo_list(bus, r);
    assert forall|k: int, m: int|
        0 <= k < m < r@.len() && laid_out(#[trigger] r@[k]) is Some && laid_out(#[trigger] r@[m])
            is Some implies {
        let fifo = laid_out(r@[k])->0;
        let next = laid_out(r@[m])->0;
        &&& fifo.start + fifo.words <= next.start
        &&& fifo.ep != next.ep
    } by {
        assert(r@[k] == fifos[k - 2] && r@[m] == fifos[m - 2]);
    }
}

/// The FIFOs of the first `n` endpoints leave no gap, from the receive FIFO to where the next one
/// will start.
proof fn lemma_fifos_without_gap<const N: usize>(bus: Bus<N>, n: int)
    requires
        bus.wf(),
        0 <= n <= bus.instance.endpoint_count,
    ensures
        ({
            let l = each(n, |i: int| bus.tx_fifo(i));
            &&& l.len() == 0 ==> bus.tx_start(n) == bus.rx_words()
            &&& l.len() > 0 ==> {
                &&& laid_out(l[0])->0.start == bus.rx_words()
                &&& laid_out(l.last())->0.start + laid_out(l.last())->0.words == bus.tx_start(n)
            }
            &&& forall|k: int|
                0 < k < l.len() ==> laid_out(#[trigger] l[k])->0.start == laid_out(
                    l[k - 1],
                )->0.start + laid_out(l[k - 1])->0.words
        }),
    decreases n,
{
    if n == 0 {
        assert(bus.ep_in@.take(0) =~= Seq::empty());
    } else {
        let f = |i: int| bus.tx_fifo(i);
        let before = each(n - 1, f);
        let last = f(n - 1);
        let l = each(n, f);
        lemma_fifos_without_gap(bus, n - 1);
        lemma_fifos_in_order(bus, n);
        lemma_total_words_step(bus.ep_in@, n - 1);
        lemma_total_words_monotonic(bus.ep_in@, n - 1);
        lemma_total_words_monotonic(bus.ep_in@, n);
        lemma_total_words_monotonic(bus.ep_out@, 0);
        assert(l == before + last);
        if last.len() > 0 {
            assert(last.len() == 1);
            assert(l.last() == last[0]);
            assert(laid_out(last[0])->0.start == bus.tx_start(n - 1));
            if before.len() > 0 {
                assert(l[0] == before[0]);
            }
        } else {
            assert(l =~= before);
        }
        assert forall|k: int| 0 < k < l.len() implies laid_out(#[trigger] l[k])->0.start
            == laid_out(l[k - 1])->0.start + laid_out(l[k - 1])->0.words by {
            assert(l[k - 1] == before[k - 1]);
            if k < before.len() {
                assert(l[k] == before[k]);
            }
        }
    }
}

/// The transmit FIFOs follow the receive FIFO and one another without a gap, in the order of their
/// endpoints.
pub proof fn law_fifos_leave_no_gap<const N: usize>(bus: Bus<N>, r: Vec<Action>, k: int)
    requires
        call_ensures(Bus::<N>::init_fifo, (&bus,), r),
        bus.wf(),
        0 <= k < r@.len(),
        laid_out(r@[k]) is Some,
    ensures
        k >= 2,
        k == 2 ==> laid_out(r@[k])->0.start == r@[1]->ModifyGrxfsiz_0,
        k > 2 ==> {
            &&& laid_out(r@[k - 1]) is Some
            &&& laid_out(r@[k - 1])->0.ep < laid_out(r@[k])->0.ep
            &&& laid_out(r@[k])->0.start == laid_out(r@[k - 1])->0.start + laid_out(
                r@[k - 1],
            )->0.words
        },
{
    let count = bus.instance.endpoint_count as int;
    let fifos = each(count, |i: int| bus.tx_fifo(i));
    lemma_fifos_without_gap(bus, count);
    lemma_fifos_in_order(bus, count);
    lemma_fifo_list(bus, r);
    assert(r@[k] == fifos[k - 2]);
    if k > 2 {
        let j = k - 3;
        assert(r@[j + 2] == fifos[j]);
    }
}

/// Every allocated IN endpoint gets a transmit FIFO.
pub proof fn law_every_in_endpoint_has_a_fifo<const N: usize>(
    bus: Bus<N>,
    r: Vec<Action>,
    ep: int,
)
    requires
        call_ensures(Bus::<N>::init_fifo, (&bus,), r),
        bus.wf(),
        0 <= ep < bus.instance.endpoint_count,
        bus.ep_in@[ep] is Some,
    ensures
        exists|k: int|
            0 <= k < r@.len() && laid_out(#[trigger] r@[k]) is Some && laid_out(r@[k])->0.ep == ep,
{
    let f = |i: int| bus.tx_fifo(i);
    let count = bus.instance.endpoint_count as int;
    let fifos = each(count, f);
    assert(f(ep).contains(f(ep)[0]));
    lemma_each_contains(count, f, ep, f(ep)[0]);
    let k = choose|k: int| 0 <= k < fifos.len() && fifos[k] == f(ep)[0];
    assert(r@[k + 2] == fifos[k]);
}

/// The receive FIFO has room for the extra words and for one packet of every OUT endpoint.
pub proof fn law_receive_fifo_is_large_enough<const N: usize>(
    bus: Bus<N>,
    r: Vec<Action>,
    ep: int,
    other: int,
)
    requires
        call_ensures(Bus::<N>::init_fifo, (&bus,), r),
        bus.wf(),
        0 <= ep < other < N,
        bus.ep_out@[ep] is Some,
        bus.ep_out@[other] is Some,
    ensures
        r@[1] is ModifyGrxfsiz,
        4 * (r@[1]->ModifyGrxfsiz_0 - bus.instance.extra_rx_fifo_words)
            >= bus.ep_out@[ep]->0.max_packet_size + bus.ep_out@[other]->0.max_packet_size,
{
    lemma_total_words_monotonic(bus.ep_out@, other + 1);
    lemma_total_words_step(bus.ep_out@, other);
    lemma_total_words_monotonic(bus.ep_out@.take(other), ep + 1);
    lemma_total_words_step(bus.ep_out@.take(other), ep);
    lemma_total_words_monotonic(bus.ep_out@.take(other), ep);
    lemma_total_words_monotonic(bus.ep_in@, 0);
}

/// The FIFOs are laid out and all of them flushed in one critical section, and the end of the flush
/// is awaited after it.
pub proof fn law_all_fifos_are_flushed<const N: usize>(bus: Bus<N>, r: Vec<Action>)
    requires
        call_ensures(Bus::<N>::init_fifo, (&bus,), r),
        bus.wf(),
    ensures
        r@.len() >= 5,
        r@[0] is EnterCritical,
        ({
            let n = r@.len() as int;
            &&& r@[n - 3] is WriteGrstctl
            &&& r@[n - 3]->WriteGrstctl_0.rxfflsh == Some(true)
            &&& r@[n - 3]->WriteGrstctl_0.txfflsh == Some(true)
            &&& r@[n - 3]->WriteGrstctl_0.txfnum == Some(0x10u8)
            &&& r@[n - 3]->WriteGrstctl_0.csrst is None
            &&& r@[n - 2] is ExitCritical
            &&& r@[n - 1] is WaitFifoFlush
            &&& forall|k: int|
                2 <= k < n - 3 ==> laid_out(#[trigger] r@[k]) is Some
        }),
{
    let count = bus.instance.endpoint_count as int;
    let fifos = each(count, |i: int| bus.tx_fifo(i));
    lemma_fifos_in_order(bus, count);
    assert forall|k: int| 2 <= k < r@.len() - 3 implies laid_out(#[trigger] r@[k]) is Some by {
        assert(r@[k] == fifos[k - 2]);
    }
}

/// The receive FIFO has exactly the extra words and those of the OUT endpoints.
pub proof fn law_receive_fifo_size<const N: usize>(bus: Bus<N>, r: Vec<Action>)
    requires
        call_ensures(Bus::<N>::init_fifo, (&bus,), r),
        bus.wf(),
    ensures
        r@[1] is ModifyGrxfsiz,
        r@[1]->ModifyGrxfsiz_0 == bus.instance.extra_rx_fifo_words + total_words(bus.ep_out@),
{
    lemma_total_words_monotonic(bus.ep_out@, 0);
    lemma_total_words_monotonic(bus.ep_in@, 0);
}

// Configuration of the endpoints
/// Whether MPSIZ of endpoint 0 stands for this packet size.
pub open spec fn codes_size(mpsiz: u16, max_packet_size: u16) -> bool {
    &&& mpsiz == 0 ==> max_packet_size == 64
    &&& mpsiz == 1 ==> max_packet_size == 32
    &&& mpsiz == 2 ==> max_packet_size == 16
    &&& mpsiz == 3 ==> max_packet_size == 8
    &&& mpsiz <= 3
}

/// Whether EPTYP stands for this transfer type.
pub open spec fn codes_type(eptyp: Option<Eptyp>, ep_type: EndpointType) -> bool {
    match ep_type {
        EndpointType::Control => eptyp == Some(Eptyp::Control),
        EndpointType::Isochronous => eptyp == Some(Eptyp::Isochronous),
        EndpointType::Bulk => eptyp == Some(Eptyp::Bulk),
        EndpointType::Interrupt => eptyp == Some(Eptyp::Interrupt),
    }
}

/// Whether a control register is what IN endpoint `i` is to start with.
pub open spec fn starts_in(c: Epctl, i: usize, ep: EndpointData, ar8030: bool) -> bool {
    &&& c.mpsiz is Some
    &&& c.stall is None && c.cnak is None && c.sd1pid_soddfrm is None && c.epdis is None
        && c.epena is None
    &&& i == 0 ==> {
        &&& codes_size(c.mpsiz->0, ep.max_packet_size)
        &&& c.usbaep == if ar8030 {
            Some(true)
        } else {
            None
        }
        &&& c.eptyp is None && c.txfnum is None && c.snak is None && c.sd0pid_sevnfrm is None
    }
    &&& i != 0 ==> {
        &&& c.mpsiz == Some(ep.max_packet_size)
        &&& codes_type(c.eptyp, ep.ep_type)
        &&& c.txfnum == Some(i as u8)
        &&& c.snak == Some(true)
        &&& c.sd0pid_sevnfrm == Some(true)
        &&& c.usbaep is None
    }
}

/// Whether a control register is what OUT endpoint `i` is to start with.
pub open spec fn starts_out(c: Epctl, i: usize, ep: EndpointData) -> bool {
    &&& c.mpsiz is Some
    &&& c.stall is None && c.cnak is None && c.snak is None && c.sd1pid_soddfrm is None
        && c.epdis is None && c.epena is None && c.txfnum is None
    &&& i == 0 ==> {
        &&& codes_size(c.mpsiz->0, ep.max_packet_size)
        &&& c.usbaep == Some(true)
        &&& c.eptyp is None && c.sd0pid_sevnfrm is None
    }
    &&& i != 0 ==> {
        &&& c.mpsiz == Some(ep.max_packet_size)
        &&& codes_type(c.eptyp, ep.ep_type)
        &&& c.sd0pid_sevnfrm == Some(true)
        &&& c.usbaep is None
    }
}

/// Whether an action is right for the configuration of the endpoints.
spec fn configures<const N: usize>(bus: Bus<N>, setup_addr: u32, action: Action) -> bool {
    match action {
        Action::EnterCritical | Action::ExitCritical => true,
        Action::WriteDiepctl(i, c) => i < N && bus.ep_in@[i as int] is Some && starts_in(
            c,
            i,
            bus.ep_in@[i as int]->0,
            bus.instance.features.ar8030,
        ),
        Action::WriteDoepctl(i, c) => i < N && bus.ep_out@[i as int] is Some && starts_out(
            c,
            i,
            bus.ep_out@[i as int]->0,
        ),
        Action::ModifyDoeptsiz(i, size) => {
            &&& 0 < i < N
            &&& bus.ep_out@[i as int] is Some
            &&& size.xfrsiz == Some(bus.ep_out@[i as int]->0.max_packet_size as u32)
            &&& size.pktcnt == Some(1u16)
            &&& size.rxdpid_stupcnt is None
        },
        Action::WriteDoeptsiz(i, size) => {
            &&& i == 0
            &&& bus.ep_out@[0] is Some
            &&& size.rxdpid_stupcnt == Some(3u8)
            &&& if bus.instance.features.dma && bus.config.dma_enable {
                size.xfrsiz == Some(24u32) && size.pktcnt == Some(1u16)
            } else {
                size.xfrsiz == Some(bus.ep_out@[0]->0.max_packet_size as u32) && size.pktcnt is None
            }
        },
        Action::WriteDoepdma(i, addr) => {
            &&& i == 0
            &&& addr == setup_addr
            &&& bus.instance.features.dma && bus.config.dma_enable
        },
        Action::ModifyDoepctl(i, c) => {
            &&& i == 0
            &&& c.cnak == Some(true) && c.epena == Some(true)
            &&& c.snak is None && c.epdis is None && c.usbaep is None
            &&& leaves_setup(c)
        },
        _ => false,
    }
}

/// Everything but the last action of the configuration is right.
proof fn lemma_configures<const N: usize>(bus: Bus<N>, state: State<N>, r: Vec<Action>)
    requires
        call_ensures(Bus::<N>::configure_endpoints, (&bus, &state), r),
        bus.configurable(),
    ensures
        r@.len() > 0,
        r@.last() is ModifyDaintmsk,
        forall|k: int|
            0 <= k < r@.len() - 1 ==> configures(bus, state.setup_dma_buf as u32, #[trigger] r@[k]),
{
    let addr = state.setup_dma_buf as u32;
    let fin = |i: int| bus.configure_in(i);
    let fout = |i: int| bus.configure_out(i, addr);
    let p = |a: Action| configures(bus, addr, a);
    assert forall|i: int, k: int| 0 <= i < N && 0 <= k < fin(i).len() implies p(
        #[trigger] fin(i)[k],
    ) by {}
    assert forall|i: int, k: int| 0 <= i < N && 0 <= k < fout(i).len() implies p(
        #[trigger] fout(i)[k],
    ) by {
        lemma_configures_out(bus, addr, i, k);
    }
    lemma_each_all(N as int, fin, p);
    lemma_each_all(N as int, fout, p);
    let ins = each(N as int, fin);
    let outs = each(N as int, fout);
    assert forall|k: int| 0 <= k < r@.len() - 1 implies configures(bus, addr, #[trigger] r@[k]) by {
        if k < ins.len() {
            assert(r@[k] == ins[k]);
            assert(p(ins[k]));
        } else {
            assert(r@[k] == outs[k - ins.len()]);
            assert(p(outs[k - ins.len()]));
        }
    }
}

/// What is done for one OUT endpoint is right.
proof fn lemma_configures_out<const N: usize>(bus: Bus<N>, addr: u32, i: int, k: int)
    requires
        bus.configurable(),
        0 <= i < N,
        0 <= k < bus.configure_out(i, addr).len(),
    ensures
        configures(bus, addr, bus.configure_out(i, addr)[k]),
{
    let all = bus.configure_out(i, addr);
    let ep = bus.ep_out@[i]->0;
    assert(all[0] is EnterCritical);
    assert(all[1] == Action::WriteDoepctl(i as usize, bus.out_control(i, ep)));
    assert(all.last() is ExitCritical);
    assert(2 <= k < all.len() - 1 ==> all[k] == bus.first_reception(i, ep, addr)[k - 2]);
}

/// Every IN endpoint that is written in the configuration is an allocated one, and starts with its
/// packet size, type and FIFO, with NAK set and even frames; endpoint 0 with the code of its size,
/// and active on the AR8030.
pub proof fn law_in_endpoints_are_configured<const N: usize>(
    bus: Bus<N>,
    state: State<N>,
    r: Vec<Action>,
    k: int,
)
    requires
        call_ensures(Bus::<N>::configure_endpoints, (&bus, &state), r),
        bus.configurable(),
        0 <= k < r@.len(),
        r@[k] is WriteDiepctl,
    ensures
        r@[k]->WriteDiepctl_0 < N,
        bus.ep_in@[r@[k]->WriteDiepctl_0 as int] is Some,
        starts_in(
            r@[k]->WriteDiepctl_1,
            r@[k]->WriteDiepctl_0,
            bus.ep_in@[r@[k]->WriteDiepctl_0 as int]->0,
            bus.instance.features.ar8030,
        ),
{
    lemma_configures(bus, state, r);
    assert(configures(bus, state.setup_dma_buf as u32, r@[k]));
}

/// Every OUT endpoint that is written in the configuration is an allocated one, and starts with its
/// packet size and type and even frames; endpoint 0 with the code of its size, and active.
pub proof fn law_out_endpoints_are_configured<const N: usize>(
    bus: Bus<N>,
    state: State<N>,
    r: Vec<Action>,
    k: int,
)
    requires
        call_ensures(Bus::<N>::configure_endpoints, (&bus, &state), r),
        bus.configurable(),
        0 <= k < r@.len(),
        r@[k] is WriteDoepctl,
    ensures
        r@[k]->WriteDoepctl_0 < N,
        bus.ep_out@[r@[k]->WriteDoepctl_0 as int] is Some,
        starts_out(
            r@[k]->WriteDoepctl_1,
            r@[k]->WriteDoepctl_0,
            bus.ep_out@[r@[k]->WriteDoepctl_0 as int]->0,
        ),
{
    lemma_configures(bus, state, r);
    assert(configures(bus, state.setup_dma_buf as u32, r@[k]));
}

/// Every transfer size that is written in the configuration is that of one packet of its endpoint.
/// Endpoint 0 is the one that waits for three SETUP packets, in the SETUP buffer where DMA is in
/// use, and the only one that is enabled.
pub proof fn law_first_reception_is_one_packet<const N: usize>(
    bus: Bus<N>,
    state: State<N>,
    r: Vec<Action>,
    k: int,
)
    requires
        call_ensures(Bus::<N>::configure_endpoints, (&bus, &state), r),
        bus.configurable(),
        0 <= k < r@.len(),
    ensures
        r@[k] is ModifyDoeptsiz ==> {
            let i = r@[k]->ModifyDoeptsiz_0;
            let size = r@[k]->ModifyDoeptsiz_1;
            &&& 0 < i < N
            &&& bus.ep_out@[i as int] is Some
            &&& size.xfrsiz == Some(bus.ep_out@[i as int]->0.max_packet_size as u32)
            &&& size.pktcnt == Some(1u16)
            &&& size.rxdpid_stupcnt is None
        },
        r@[k] is WriteDoeptsiz ==> {
            let size = r@[k]->WriteDoeptsiz_1;
            &&& r@[k]->WriteDoeptsiz_0 == 0
            &&& size.rxdpid_stupcnt == Some(3u8)
            &&& bus.instance.features.dma && bus.config.dma_enable ==> size.xfrsiz == Some(24u32)
                && size.pktcnt == Some(1u16)
            &&& !(bus.instance.features.dma && bus.config.dma_enable) ==> size.xfrsiz == Some(
                bus.ep_out@[0]->0.max_packet_size as u32,
            ) && size.pktcnt is None
        },
        r@[k] is WriteDoepdma ==> {
            &&& r@[k]->WriteDoepdma_0 == 0
            &&& r@[k]->WriteDoepdma_1 == state.setup_dma_buf as u32
            &&& bus.instance.features.dma && bus.config.dma_enable
        },
        r@[k] is ModifyDoepctl ==> {
            let c = r@[k]->ModifyDoepctl_1;
            &&& r@[k]->ModifyDoepctl_0 == 0
            &&& c.cnak == Some(true) && c.epena == Some(true)
            &&& c.snak is None && c.epdis is None && c.usbaep is None
            &&& leaves_setup(c)
        },
        r@[k] !is ModifyDiepctl,
{
    lemma_configures(bus, state, r);
    if k < r@.len() - 1 {
        assert(configures(bus, state.setup_dma_buf as u32, r@[k]));
    }
}

/// Every allocated endpoint is configured: an IN endpoint by its control register, an OUT endpoint
/// by its control register and its transfer size, and endpoint 0 by being enabled as well, and given
/// the SETUP buffer where DMA is in use.
pub proof fn law_every_endpoint_is_configured<const N: usize>(
    bus: Bus<N>,
    state: State<N>,
    r: Vec<Action>,
    i: usize,
)
    requires
        call_ensures(Bus::<N>::configure_endpoints, (&bus, &state), r),
        bus.configurable(),
        i < N,
    ensures
        bus.ep_in@[i as int] is Some ==> exists|k: int|
            0 <= k < r@.len() && (#[trigger] r@[k]) is WriteDiepctl && r@[k]->WriteDiepctl_0 == i,
        bus.ep_out@[i as int] is Some ==> {
            &&& exists|k: int|
                0 <= k < r@.len() && (#[trigger] r@[k]) is WriteDoepctl && r@[k]->WriteDoepctl_0
                    == i
            &&& i != 0 ==> exists|k: int|
                0 <= k < r@.len() && (#[trigger] r@[k]) is ModifyDoeptsiz
                    && r@[k]->ModifyDoeptsiz_0 == i
            &&& i == 0 ==> exists|k: int|
                0 <= k < r@.len() && (#[trigger] r@[k]) is WriteDoeptsiz
            &&& i == 0 ==> exists|k: int|
                0 <= k < r@.len() && (#[trigger] r@[k]) is ModifyDoepctl
            &&& i == 0 && bus.instance.features.dma && bus.config.dma_enable ==> exists|k: int|
                0 <= k < r@.len() && (#[trigger] r@[k]) is WriteDoepdma
        },
{
    let addr = state.setup_dma_buf as u32;
    let n = N as int;
    let fin = |i: int| bus.configure_in(i);
    let fout = |i: int| bus.configure_out(i, addr);
    let ins = each(n, fin);
    let outs = each(n, fout);
    if bus.ep_in@[i as int] is Some {
        let x = fin(i as int)[1];
        assert(fin(i as int).contains(x));
        lemma_each_contains(n, fin, i as int, x);
        let k = choose|k: int| 0 <= k < ins.len() && ins[k] == x;
        assert(r@[k] == x);
    }
    if bus.ep_out@[i as int] is Some {
        assert forall|j: int| 0 <= j < fout(i as int).len() implies exists|k: int|
            0 <= k < r@.len() && r@[k] == #[trigger] fout(i as int)[j] by {
            let x = fout(i as int)[j];
            assert(fout(i as int).contains(x));
            lemma_each_contains(n, fout, i as int, x);
            let k = choose|k: int| 0 <= k < outs.len() && outs[k] == x;
            assert(r@[ins.len() + k] == x);
        }
        let l = fout(i as int);
        assert(l[1] is WriteDoepctl);
        if i != 0 {
            assert(l[2] is ModifyDoeptsiz);
        } else {
            assert(l[2] is WriteDoeptsiz);
            if bus.instance.features.dma && bus.config.dma_enable {
                assert(l[3] is WriteDoepdma);
                assert(l[4] is ModifyDoepctl);
            } else {
                assert(l[3] is ModifyDoepctl);
            }
        }
    }
}

/// The configuration is made of one block for each IN endpoint, then one for each OUT endpoint, in
/// the order of their numbers, and the interrupt mask. The block of an endpoint that is not
/// allocated is empty; any other is a critical section in which the control register comes first,
/// then what is to be received, and the endpoint is enabled last.
pub proof fn law_configuration_is_made_of_blocks<const N: usize>(
    bus: Bus<N>,
    state: State<N>,
    r: Vec<Action>,
    i: usize,
)
    requires
        call_ensures(Bus::<N>::configure_endpoints, (&bus, &state), r),
        bus.configurable(),
        i < N,
    ensures
        ({
            let addr = state.setup_dma_buf as u32;
            let b = bus.configure_in(i as int);
            let c = bus.configure_out(i as int, addr);
            let dma = bus.instance.features.dma && bus.config.dma_enable;
            &&& r@ == each(N as int, |i: int| bus.configure_in(i)) + each(
                N as int,
                |i: int| bus.configure_out(i, addr),
            ) + seq![r@.last()]
            &&& bus.ep_in@[i as int] is None ==> b.len() == 0
            &&& bus.ep_in@[i as int] is Some ==> {
                &&& b.len() == 3
                &&& b[0] is EnterCritical
                &&& b[1] is WriteDiepctl && b[1]->WriteDiepctl_0 == i
                &&& b[2] is ExitCritical
            }
            &&& bus.ep_out@[i as int] is None ==> c.len() == 0
            &&& bus.ep_out@[i as int] is Some ==> {
                &&& c[0] is EnterCritical
                &&& c[1] is WriteDoepctl && c[1]->WriteDoepctl_0 == i
                &&& c.last() is ExitCritical
                &&& i != 0 ==> c.len() == 4 && c[2] is ModifyDoeptsiz && c[2]->ModifyDoeptsiz_0
                    == i
                &&& i == 0 ==> c[2] is WriteDoeptsiz
                &&& i == 0 && dma ==> c.len() == 6 && c[3] is WriteDoepdma && c[4] is ModifyDoepctl
                &&& i == 0 && !dma ==> c.len() == 5 && c[3] is ModifyDoepctl
            }
        }),
{
}

/// Configuring ends with the interrupts of exactly the allocated endpoints enabled.
pub proof fn law_allocated_endpoints_raise_interrupts<const N: usize>(
    bus: Bus<N>,
    state: State<N>,
    r: Vec<Action>,
    i: int,
)
    requires
        call_ensures(Bus::<N>::configure_endpoints, (&bus, &state), r),
        bus.configurable(),
        0 <= i < 16,
    ensures
        r@.last() is ModifyDaintmsk,
        r@.last()->ModifyDaintmsk_0.iepm is Some,
        r@.last()->ModifyDaintmsk_0.oepm is Some,
        r@.last()->ModifyDaintmsk_0.iepm->0 & (1u16 << (i as u16)) != 0 <==> (i < N
            && bus.ep_in@[i] is Some),
        r@.last()->ModifyDaintmsk_0.oepm->0 & (1u16 << (i as u16)) != 0 <==> (i < N
            && bus.ep_out@[i] is Some),
{
    lemma_irq_mask_bits(bus.ep_in@, i);
    lemma_irq_mask_bits(bus.ep_out@, i);
}

// Single endpoints
/// Stalling or releasing an endpoint updates its own control register, in a critical section, with
/// nothing but the stall, and then wakes its task.
pub proof fn law_stalling_updates_one_endpoint<const N: usize>(
    bus: Bus<N>,
    addr: EndpointAddress,
    stalled: bool,
    r: Vec<Action>,
)
    requires
        call_ensures(Bus::<N>::endpoint_set_stalled, (&bus, addr, stalled), r),
    ensures
        r@.len() == 4,
        r@[0] is EnterCritical,
        r@[2] is ExitCritical,
        ({
            let i = addr.byte as int % 128;
            let c = if addr.byte >= 128 {
                r@[1]->ModifyDiepctl_1
            } else {
                r@[1]->ModifyDoepctl_1
            };
            &&& addr.byte >= 128 ==> r@[1] is ModifyDiepctl && r@[1]->ModifyDiepctl_0 == i && r@[3]
                == Action::WakeIn(i as usize)
            &&& addr.byte < 128 ==> r@[1] is ModifyDoepctl && r@[1]->ModifyDoepctl_0 == i && r@[3]
                == Action::WakeOut(i as usize)
            &&& c.stall == Some(stalled)
            &&& c.mpsiz is None && c.usbaep is None && c.eptyp is None && c.txfnum is None
                && c.cnak is None && c.snak is None && c.sd0pid_sevnfrm is None
                && c.sd1pid_soddfrm is None && c.epdis is None && c.epena is None
        }),
{
}

/// Whether an endpoint is stalled is read from its own control register.
pub proof fn law_stall_is_read<const N: usize>(
    bus: Bus<N>,
    addr: EndpointAddress,
    diepctl: EpStatus,
    doepctl: EpStatus,
    r: bool,
)
    requires
        call_ensures(Bus::<N>::endpoint_is_stalled, (&bus, addr, diepctl, doepctl), r),
    ensures
        addr.byte >= 128 ==> r == diepctl.stall,
        addr.byte < 128 ==> r == doepctl.stall,
{
}

/// Enabling or disabling an IN endpoint sets it active or not in a critical section, with NAK
/// cleared where it is enabled; before it is disabled, its transfer is cancelled. Its task is woken
/// afterwards.
pub proof fn law_enabling_an_in_endpoint<const N: usize>(
    bus: Bus<N>,
    addr: EndpointAddress,
    enabled: bool,
    r: Vec<Action>,
)
    requires
        call_ensures(Bus::<N>::endpoint_set_enabled, (&bus, addr, enabled), r),
        addr.byte >= 128,
    ensures
        ({
            let i = (addr.byte - 128) as usize;
            let n: int = if enabled {
                0
            } else {
                1
            };
            let c = r@[n + 1]->ModifyDiepctl_1;
            &&& r@.len() == n + 4
            &&& r@[0] is EnterCritical
            &&& !enabled ==> r@[1] == Action::Probe(Probe::CancelTransfer(Direction::In, i))
            &&& r@[n + 1] is ModifyDiepctl && r@[n + 1]->ModifyDiepctl_0 == i
            &&& c.usbaep == Some(enabled) && c.cnak == Some(enabled)
            &&& c.snak is None && c.epdis is None && c.epena is None
            &&& leaves_setup(c)
            &&& r@[n + 2] is ExitCritical
            &&& r@[n + 3] == Action::WakeIn(i)
        }),
{
}

/// Enabling or disabling an OUT endpoint sets it active or not in a critical section, in which the
/// transmit FIFO of its number is flushed and that awaited; before it is disabled, its transfer is
/// cancelled. Its task is woken afterwards.
pub proof fn law_enabling_an_out_endpoint<const N: usize>(
    bus: Bus<N>,
    addr: EndpointAddress,
    enabled: bool,
    r: Vec<Action>,
)
    requires
        call_ensures(Bus::<N>::endpoint_set_enabled, (&bus, addr, enabled), r),
        addr.byte < 128,
    ensures
        ({
            let i = addr.byte as usize;
            let n: int = if enabled {
                0
            } else {
                1
            };
            let c = r@[n + 1]->ModifyDoepctl_1;
            let flush = r@[n + 2]->WriteGrstctl_0;
            &&& r@.len() == n + 6
            &&& r@[0] is EnterCritical
            &&& !enabled ==> r@[1] == Action::Probe(Probe::CancelTransfer(Direction::Out, i))
            &&& r@[n + 1] is ModifyDoepctl && r@[n + 1]->ModifyDoepctl_0 == i
            &&& c.usbaep == Some(enabled)
            &&& c.cnak is None && c.snak is None && c.epdis is None && c.epena is None
            &&& leaves_setup(c)
            &&& r@[n + 2] is WriteGrstctl
            &&& flush.txfflsh == Some(true) && flush.txfnum == Some(addr.byte)
            &&& flush.rxfflsh is None && flush.csrst is None
            &&& r@[n + 3] is WaitTxFlush
            &&& r@[n + 4] is ExitCritical
            &&& r@[n + 5] == Action::WakeOut(i)
        }),
{
}

/// Disabling all endpoints does for each of them what disabling it alone does, IN before OUT, one
/// number after the other.
pub proof fn law_all_endpoints_are_disabled<const N: usize>(
    bus: Bus<N>,
    r: Vec<Action>,
    i: usize,
    one_in: Vec<Action>,
    one_out: Vec<Action>,
)
    requires
        call_ensures(Bus::<N>::disable_all_endpoints, (&bus,), r),
        bus.wf(),
        i < bus.instance.endpoint_count,
        call_ensures(
            Bus::<N>::endpoint_set_enabled,
            (&bus, (EndpointAddress { byte: (128 + i) as u8 }), false),
            one_in,
        ),
        call_ensures(
            Bus::<N>::endpoint_set_enabled,
            (&bus, (EndpointAddress { byte: i as u8 }), false),
            one_out,
        ),
    ensures
        r@.len() == 12 * bus.instance.endpoint_count,
        r@.subrange(12 * i, 12 * i + 5) == one_in@,
        r@.subrange(12 * i + 5, 12 * i + 12) == one_out@,
{
    let count = bus.instance.endpoint_count as int;
    lemma_disable_layout::<N>(count, i as int);
    assert(EndpointAddress::of(i as int, Direction::In) == (EndpointAddress {
        byte: (128 + i) as u8,
    }));
    assert(EndpointAddress::of(i as int, Direction::Out) == (EndpointAddress { byte: i as u8 }));
    let step = Bus::<N>::disable_actions(i as int);
    assert(step =~= one_in@ + one_out@);
    assert(r@.subrange(12 * i, 12 * i + 5) =~= step.subrange(0, 5)) by {
        assert forall|k: int| 0 <= k < 5 implies r@[12 * i + k] == #[trigger] step[k] by {
            assert(r@.subrange(12 * i, 12 * i + 12)[k] == step[k]);
        }
    }
    assert(r@.subrange(12 * i + 5, 12 * i + 12) =~= step.subrange(5, 12)) by {
        assert forall|k: int| 5 <= k < 12 implies r@[12 * i + k] == #[trigger] step[k] by {
            assert(r@.subrange(12 * i, 12 * i + 12)[k] == step[k]);
        }
    }
}

/// The list that disables the first `n` endpoints has twelve actions for each.
proof fn lemma_disable_layout<const N: usize>(n: int, i: int)
    requires
        0 <= i < n <= MAX_ENDPOINTS,
    ensures
        ({
            let l = each(n, |i: int| Bus::<N>::disable_actions(i));
            &&& l.len() == 12 * n
            &&& l.subrange(12 * i, 12 * i + 12) == Bus::<N>::disable_actions(i)
        }),
    decreases n,
{
    let f = |i: int| Bus::<N>::disable_actions(i);
    lemma_disable_len::<N>(n - 1);
    let before = each(n - 1, f);
    let last = f(n - 1);
    assert(last.len() == 12);
    assert(each(n, f) == before + last);
    if i < n - 1 {
        lemma_disable_layout::<N>(n - 1, i);
        assert((before + last).subrange(12 * i, 12 * i + 12) =~= before.subrange(
            12 * i,
            12 * i + 12,
        ));
    } else {
        assert((before + last).subrange(12 * i, 12 * i + 12) =~= last);
    }
}

/// The length of that list.
proof fn lemma_disable_len<const N: usize>(n: int)
    requires
        0 <= n <= MAX_ENDPOINTS,
    ensures
        each(n, |i: int| Bus::<N>::disable_actions(i)).len() == 12 * n,
    decreases n,
{
    if n > 0 {
        lemma_disable_len::<N>(n - 1);
        assert(Bus::<N>::disable_actions(n - 1).len() == 12);
    }
}

// Bus events
/// Whether an action is no access to the core's interrupt flags or masks.
pub open spec fn spares_interrupts(a: Action) -> bool {
    a !is WriteGintsts && a !is WriteGintstsBits && a !is WriteGintmsk && a !is WriteGotgint
}

/// Neither laying out the FIFOs nor configuring the endpoints touches the interrupts.
proof fn lemma_setup_spares_interrupts<const N: usize>(bus: Bus<N>, addr: u32)
    ensures
        forall|k: int|
            0 <= k < bus.init_fifo_actions().len() ==> spares_interrupts(
                #[trigger] bus.init_fifo_actions()[k],
            ),
        forall|k: int|
            0 <= k < bus.configure_endpoints_actions(addr).len() ==> spares_interrupts(
                #[trigger] bus.configure_endpoints_actions(addr)[k],
            ),
{
    let p = |a: Action| spares_interrupts(a);
    let count = bus.instance.endpoint_count as int;
    let ff = |i: int| bus.tx_fifo(i);
    let fin = |i: int| bus.configure_in(i);
    let fout = |i: int| bus.configure_out(i, addr);
    lemma_each_all(count, ff, p);
    lemma_each_all(N as int, fin, p);
    lemma_each_all(N as int, fout, p);
    let fifos = each(count, ff);
    let ins = each(N as int, fin);
    let outs = each(N as int, fout);
    let a = bus.init_fifo_actions();
    assert forall|k: int| 0 <= k < a.len() implies spares_interrupts(#[trigger] a[k]) by {
        if 2 <= k < 2 + fifos.len() {
            assert(a[k] == fifos[k - 2]);
            assert(p(fifos[k - 2]));
        }
    }
    let b = bus.configure_endpoints_actions(addr);
    assert forall|k: int| 0 <= k < b.len() implies spares_interrupts(#[trigger] b[k]) by {
        if k < ins.len() {
            assert(b[k] == ins[k]);
            assert(p(ins[k]));
        } else if k < ins.len() + outs.len() {
            assert(b[k] == outs[k - ins.len()]);
            assert(p(outs[k - ins.len()]));
        }
    }
}

/// Aborting and waking the endpoints does not touch the interrupts of the core.
proof fn lemma_start_spares_interrupts<const N: usize>(bus: Bus<N>)
    ensures
        forall|k: int|
            0 <= k < bus.abort_all_actions().len() ==> spares_interrupts(
                #[trigger] bus.abort_all_actions()[k],
            ),
        forall|k: int|
            0 <= k < bus.wake_all_actions().len() ==> spares_interrupts(
                #[trigger] bus.wake_all_actions()[k],
            ),
{
    let p = |a: Action| spares_interrupts(a);
    let count = bus.instance.endpoint_count as int;
    let fa = |i: int| Bus::<N>::abort_endpoint(i);
    let fw = |i: int| Bus::<N>::wake_endpoint(i);
    lemma_each_all(count, fa, p);
    lemma_each_all(count, fw, p);
    let a = bus.abort_all_actions();
    let w = bus.wake_all_actions();
    assert forall|k: int| 0 <= k < a.len() implies spares_interrupts(#[trigger] a[k]) by {
        assert(p(a[k]));
    }
    assert forall|k: int| 0 <= k < w.len() implies spares_interrupts(#[trigger] w[k]) by {
        assert(p(w[k]));
    }
}

/// All of a bus reset but its last two actions spares the interrupts.
proof fn lemma_reset_spares_interrupts<const N: usize>(bus: Bus<N>, addr: u32)
    ensures
        forall|k: int|
            0 <= k < bus.reset_actions(addr).len() - 2 ==> spares_interrupts(
                #[trigger] bus.reset_actions(addr)[k],
            ),
{
    let a = bus.abort_all_actions();
    let w = bus.wake_all_actions();
    let f = bus.init_fifo_actions();
    let c = bus.configure_endpoints_actions(addr);
    let all = bus.reset_actions(addr);
    lemma_start_spares_interrupts(bus);
    lemma_setup_spares_interrupts(bus, addr);
    assert forall|k: int| 0 <= k < all.len() - 2 implies spares_interrupts(#[trigger] all[k]) by {
        if k < a.len() {
            assert(all[k] == a[k]);
        } else if k < a.len() + w.len() {
            assert(all[k] == w[k - a.len()]);
        } else if k < a.len() + w.len() + f.len() {
            assert(all[k] == f[k - a.len() - w.len()]);
        } else if k < a.len() + w.len() + f.len() + c.len() {
            assert(all[k] == c[k - a.len() - w.len() - f.len()]);
        } else {
            assert(all[k] == bus.end_reset_actions()[k - a.len() - w.len() - f.len() - c.len()]);
        }
    }
}

/// Whether a write of the core's interrupt flags clears none but at most those given.
pub open spec fn clears_only(
    g: Gintsts,
    srqint: bool,
    usbrst: bool,
    enumdne: bool,
    usbsusp: bool,
    wkupint: bool,
) -> bool {
    &&& g.srqint == srqint
    &&& g.usbrst == usbrst
    &&& g.enumdne == enumdne
    &&& g.usbsusp == usbsusp
    &&& g.wkupint == wkupint
    &&& !g.otgint && !g.rxflvl && !g.iepint && !g.oepint
}

/// Whether a write of the interrupt mask unmasks all that the bus waits for.
pub open spec fn unmasks_all<const N: usize>(bus: Bus<N>, a: Action) -> bool {
    &&& a is WriteGintmsk
    &&& {
        let m = a->WriteGintmsk_0;
        &&& m.usbrst && m.enumdnem && m.usbsuspm && m.wuim && m.srqim && m.otgint
        &&& m.iepint && m.oepint
        &&& m.rxflvlm == !(bus.instance.features.dma && bus.config.dma_enable)
    }
}

/// A bus reset begins with what is being sent aborted and acknowledged on every endpoint, and goes
/// on with every endpoint's tasks woken.
pub proof fn law_reset_aborts_and_wakes<const N: usize>(
    bus: Bus<N>,
    state: State<N>,
    r: Vec<Action>,
    i: int,
)
    requires
        call_ensures(Bus::<N>::reset, (&bus, &state), r),
        bus.wf(),
        bus.configurable(),
        0 <= i < bus.instance.endpoint_count,
    ensures
        ({
            let n = bus.instance.endpoint_count as int;
            &&& r@[2 * i] == Action::Probe(Probe::AbortIn(i as usize))
            &&& r@[2 * i + 1] == Action::AckDiepint(i as usize)
            &&& r@[2 * n + 2 * i] == Action::WakeIn(i as usize)
            &&& r@[2 * n + 2 * i + 1] == Action::WakeOut(i as usize)
        }),
{
    let n = bus.instance.endpoint_count as int;
    let fa = |i: int| Bus::<N>::abort_endpoint(i);
    let fw = |i: int| Bus::<N>::wake_endpoint(i);
    lemma_pairs(n, fa, i);
    lemma_pairs(n, fw, i);
    let a = bus.abort_all_actions();
    let w = bus.wake_all_actions();
    assert(r@[2 * i] == a[2 * i]);
    assert(r@[2 * i + 1] == a[2 * i + 1]);
    assert(r@[2 * n + 2 * i] == w[2 * i]);
    assert(r@[2 * n + 2 * i + 1] == w[2 * i + 1]);
}

/// Where two actions are done for each of `n`, those for `i` come after the `2 * i` before.
proof fn lemma_pairs(n: int, f: spec_fn(int) -> Seq<Action>, i: int)
    requires
        0 <= i < n,
        forall|j: int| 0 <= j < n ==> (#[trigger] f(j)).len() == 2,
    ensures
        each(n, f).len() == 2 * n,
        each(n, f)[2 * i] == f(i)[0],
        each(n, f)[2 * i + 1] == f(i)[1],
    decreases n,
{
    let before = each(n - 1, f);
    if n == 1 {
        assert(before.len() == 0);
        assert(f(0).len() == 2);
    } else {
        lemma_pairs(
            n - 1,
            f,
            if i < n - 1 {
                i
            } else {
                0
            },
        );
        assert(f(n - 1).len() == 2);
        if i < n - 1 {
            assert(each(n, f)[2 * i] == before[2 * i]);
            assert(each(n, f)[2 * i + 1] == before[2 * i + 1]);
        }
    }
}

/// After that, a bus reset lays out the FIFOs and then configures the endpoints, as these operations
/// do by themselves; it ends with the address back at 0, its interrupt acknowledged and no other,
/// and all interrupts unmasked.
pub proof fn law_reset_sets_up_anew<const N: usize>(
    bus: Bus<N>,
    state: State<N>,
    r: Vec<Action>,
    fifos: Vec<Action>,
    endpoints: Vec<Action>,
)
    requires
        call_ensures(Bus::<N>::reset, (&bus, &state), r),
        call_ensures(Bus::<N>::init_fifo, (&bus,), fifos),
        call_ensures(Bus::<N>::configure_endpoints, (&bus, &state), endpoints),
        bus.wf(),
        bus.configurable(),
    ensures
        ({
            let n = 4 * bus.instance.endpoint_count as int;
            let m = n + fifos@.len();
            let e = m + endpoints@.len();
            &&& r@.len() == e + 5
            &&& r@.subrange(n, m) == fifos@
            &&& r@.subrange(m, e) == endpoints@
            &&& r@[e] is EnterCritical
            &&& r@[e + 1] is ModifyDcfg
            &&& r@[e + 1]->ModifyDcfg_0.dad == Some(0u8)
            &&& r@[e + 1]->ModifyDcfg_0.pfivl is None && r@[e + 1]->ModifyDcfg_0.dspd is None
                && r@[e + 1]->ModifyDcfg_0.xcvrdly is None
            &&& r@[e + 2] is ExitCritical
            &&& r@[e + 3] is WriteGintsts
            &&& clears_only(r@[e + 3]->WriteGintsts_0, false, true, false, false, false)
            &&& unmasks_all(bus, r@[e + 4])
        }),
{
    let n = bus.instance.endpoint_count as int;
    let a = bus.abort_all_actions();
    let w = bus.wake_all_actions();
    lemma_pair_count(n, |i: int| Bus::<N>::abort_endpoint(i));
    lemma_pair_count(n, |i: int| Bus::<N>::wake_endpoint(i));
    let m = 4 * n + fifos@.len();
    let e = m + endpoints@.len();
    let end = bus.end_reset_actions();
    assert(r@ == a + w + fifos@ + endpoints@ + end);
    assert(r@.subrange(4 * n, m) =~= fifos@);
    assert(r@.subrange(m, e) =~= endpoints@);
    assert forall|k: int| 0 <= k < 5 implies r@[e + k] == #[trigger] end[k] by {}
    assert(end[0] is EnterCritical && end[2] is ExitCritical);
    assert(r@[e + 1] == end[1] && r@[e + 3] == end[3] && r@[e + 4] == end[4]);
}

/// Where two actions are done for each of `n`, there are twice as many.
proof fn lemma_pair_count(n: int, f: spec_fn(int) -> Seq<Action>)
    requires
        0 <= n,
        forall|j: int| 0 <= j < n ==> (#[trigger] f(j)).len() == 2,
    ensures
        each(n, f).len() == 2 * n,
    decreases n,
{
    if n > 0 {
        lemma_pair_count(n - 1, f);
        assert(f(n - 1).len() == 2);
    }
}

/// The first step of waiting initializes the core, once: only the first time, and then power is
/// reported at once where VBUS is not watched. Every other step looks at the core's interrupts.
pub proof fn law_first_step_initializes<const N: usize>(
    bus: &mut Bus<N>,
    state: &mut State<N>,
    r: PollStep,
    fresh: &mut State<N>,
    init: Vec<Action>,
)
    requires
        call_ensures(Bus::<N>::poll, (bus, state), r),
        call_ensures(Bus::<N>::init, (&*old(bus), fresh), init),
    ensures
        final(bus).inited,
        final(bus).config == old(bus).config,
        final(bus).instance == old(bus).instance,
        final(bus).ep_in == old(bus).ep_in,
        final(bus).ep_out == old(bus).ep_out,
        r.actions@ == if old(bus).inited {
            Seq::empty()
        } else {
            init@
        },
        r.outcome == PollOutcome::Ready(Event::PowerDetected) <==> (!old(bus).inited && !old(
            bus,
        ).config.vbus_detection),
        r.outcome is ReadGintsts <==> (old(bus).inited || old(bus).config.vbus_detection),
        old(bus).inited ==> *final(state) == *old(state),
        !old(bus).inited ==> {
            &&& final(state).dma_enabled == (old(state).dma_enabled || (old(
                bus,
            ).instance.features.dma && old(bus).config.dma_enable))
            &&& final(state).cp_state == old(state).cp_state
            &&& final(state).ep_states == old(state).ep_states
            &&& final(state).setup_dma_buf == old(state).setup_dma_buf
            &&& final(state).byte_order == old(state).byte_order
        },
{
}

/// What the pending interrupts are reported as: a session request first, where VBUS is watched; then
/// an OTG interrupt has to be looked into; then the end of the speed enumeration, whether or not a
/// reset is pending too, then a suspend, then a resume. Nothing is reported where none of these is
/// pending.
pub proof fn law_interrupts_are_reported<const N: usize>(
    bus: Bus<N>,
    state: State<N>,
    ints: Gintsts,
    r: PollStep,
)
    requires
        call_ensures(Bus::<N>::poll_interrupts, (&bus, &state, ints), r),
    ensures
        ({
            let power = ints.srqint && bus.config.vbus_detection;
            let rest = !power && !ints.otgint;
            &&& r.outcome == PollOutcome::Ready(Event::PowerDetected) <==> power
            &&& r.outcome is ReadGotgint <==> !power && ints.otgint
            &&& r.outcome == PollOutcome::Ready(Event::Reset) <==> rest && ints.enumdne
            &&& r.outcome == PollOutcome::Ready(Event::Suspend) <==> rest && !ints.enumdne
                && ints.usbsusp
            &&& r.outcome == PollOutcome::Ready(Event::Resume) <==> rest && !ints.enumdne
                && !ints.usbsusp && ints.wkupint
            &&& r.outcome is Pending <==> rest && !ints.enumdne && !ints.usbsusp && !ints.wkupint
        }),
{
}

/// The same after an OTG interrupt has been looked into: the end of a session first, where VBUS is
/// watched, and else as if there had been no OTG interrupt.
pub proof fn law_otg_interrupts_are_reported<const N: usize>(
    bus: Bus<N>,
    state: State<N>,
    ints: Gintsts,
    otgints: Gotgint,
    r: PollStep,
)
    requires
        call_ensures(Bus::<N>::poll_otg, (&bus, &state, ints, otgints), r),
    ensures
        ({
            let power = otgints.sedet && bus.config.vbus_detection;
            &&& r.outcome == PollOutcome::Ready(Event::PowerRemoved) <==> power
            &&& r.outcome == PollOutcome::Ready(Event::Reset) <==> !power && ints.enumdne
            &&& r.outcome == PollOutcome::Ready(Event::Suspend) <==> !power && !ints.enumdne
                && ints.usbsusp
            &&& r.outcome == PollOutcome::Ready(Event::Resume) <==> !power && !ints.enumdne
                && !ints.usbsusp && ints.wkupint
            &&& r.outcome is Pending <==> !power && !ints.enumdne && !ints.usbsusp
                && !ints.wkupint
        }),
{
}

/// Whether a list ends with the interrupt flags of one event cleared and all interrupts unmasked.
pub open spec fn ends_with_clear<const N: usize>(
    bus: Bus<N>,
    l: Seq<Action>,
    enumdne: bool,
    usbsusp: bool,
    wkupint: bool,
) -> bool {
    &&& l.len() >= 2
    &&& l[l.len() - 2] is WriteGintsts
    &&& clears_only(l[l.len() - 2]->WriteGintsts_0, false, false, enumdne, usbsusp, wkupint)
    &&& unmasks_all(bus, l.last())
}

/// Every flag that is cleared is that of a pending interrupt: a session request that has come, a bus
/// reset that is handled here, or the one event that is reported.
pub proof fn law_cleared_interrupts_were_pending<const N: usize>(
    bus: Bus<N>,
    state: State<N>,
    ints: Gintsts,
    r: PollStep,
    k: int,
)
    requires
        call_ensures(Bus::<N>::poll_interrupts, (&bus, &state, ints), r),
        0 <= k < r.actions@.len(),
    ensures
        r.actions@[k] is WriteGintsts ==> {
            let g = r.actions@[k]->WriteGintsts_0;
            ||| ints.srqint && k == 0 && clears_only(g, true, false, false, false, false)
            ||| ints.usbrst && clears_only(g, false, true, false, false, false)
            ||| r.outcome == PollOutcome::Ready(Event::Reset) && clears_only(
                g,
                false,
                false,
                true,
                false,
                false,
            )
            ||| r.outcome == PollOutcome::Ready(Event::Suspend) && clears_only(
                g,
                false,
                false,
                false,
                true,
                false,
            )
            ||| r.outcome == PollOutcome::Ready(Event::Resume) && clears_only(
                g,
                false,
                false,
                false,
                false,
                true,
            )
        },
        r.actions@[k] is WriteGintmsk ==> k > 0 && r.actions@[k - 1] is WriteGintsts
            && unmasks_all(bus, r.actions@[k]),
        r.actions@[k] !is WriteGintstsBits,
        r.actions@[k] !is WriteGotgint,
{
    let addr = state.setup_dma_buf as u32;
    let s = bus.session_actions(ints);
    let reset = if ints.usbrst {
        bus.reset_actions(addr)
    } else {
        Seq::empty()
    };
    let event = bus.event_actions(ints);
    let n = s.len() as int;
    if k < n {
        assert(r.actions@[k] == s[k]);
        assert(r.actions@[0] == s[0]);
    } else {
        assert(r.actions@ == s + (reset + event));
        let j = k - n;
        if j < reset.len() {
            assert(r.actions@[k] == reset[j]);
            lemma_reset_clears(bus, addr, j);
            if j > 0 {
                assert(r.actions@[k - 1] == reset[j - 1]);
            }
        } else {
            let m = j - reset.len();
            assert(r.actions@[k] == event[m]);
            lemma_event_clears(bus, ints, m);
            if m > 0 {
                assert(r.actions@[k - 1] == event[m - 1]);
            }
        }
    }
}

/// Of a bus reset, only its own flag is cleared, and the interrupts are unmasked right after.
proof fn lemma_reset_clears<const N: usize>(bus: Bus<N>, addr: u32, j: int)
    requires
        0 <= j < bus.reset_actions(addr).len(),
    ensures
        ({
            let l = bus.reset_actions(addr);
            &&& l[j] is WriteGintsts ==> clears_only(
                l[j]->WriteGintsts_0,
                false,
                true,
                false,
                false,
                false,
            )
            &&& l[j] is WriteGintmsk ==> j > 0 && l[j - 1] is WriteGintsts && unmasks_all(bus, l[j])
            &&& l[j] !is WriteGintstsBits && l[j] !is WriteGotgint
        }),
{
    let l = bus.reset_actions(addr);
    lemma_reset_end_shape(bus, addr);
    lemma_reset_spares_interrupts(bus, addr);
    if j < l.len() - 2 {
        assert(spares_interrupts(l[j]));
    }
}

/// Of an event, only its own flag is cleared, and the interrupts are unmasked right after.
proof fn lemma_event_clears<const N: usize>(bus: Bus<N>, ints: Gintsts, j: int)
    requires
        0 <= j < bus.event_actions(ints).len(),
    ensures
        ({
            let l = bus.event_actions(ints);
            &&& l[j] is WriteGintsts ==> clears_only(
                l[j]->WriteGintsts_0,
                false,
                false,
                ints.enumdne,
                !ints.enumdne && ints.usbsusp,
                !ints.enumdne && !ints.usbsusp && ints.wkupint,
            )
            &&& l[j] is WriteGintmsk ==> j > 0 && l[j - 1] is WriteGintsts && unmasks_all(bus, l[j])
            &&& l[j] !is WriteGintstsBits && l[j] !is WriteGotgint
            &&& ints.enumdne || ints.usbsusp || ints.wkupint
        }),
{
}

/// The last two actions of a bus reset.
proof fn lemma_reset_end_shape<const N: usize>(bus: Bus<N>, addr: u32)
    ensures
        ({
            let all = bus.reset_actions(addr);
            let n = all.len() as int;
            &&& n >= 5
            &&& all[n - 2] is WriteGintsts
            &&& clears_only(all[n - 2]->WriteGintsts_0, false, true, false, false, false)
            &&& unmasks_all(bus, all[n - 1])
        }),
{
    let all = bus.reset_actions(addr);
    let end = bus.end_reset_actions();
    let n = all.len() as int;
    assert(all[n - 2] == end[3]);
    assert(all[n - 1] == end[4]);
}

/// The end of a list of three parts is the end of the last part.
proof fn lemma_tail(a: Seq<Action>, b: Seq<Action>, c: Seq<Action>, j: int)
    requires
        0 < j <= c.len(),
    ensures
        (a + (b + c))[(a + (b + c)).len() - j] == c[c.len() - j],
{
}

/// What goes with an event.
proof fn lemma_event_shape<const N: usize>(bus: Bus<N>, ints: Gintsts)
    ensures
        ({
            let l = bus.event_actions(ints);
            let n = l.len() as int;
            &&& ints.enumdne || ints.usbsusp || ints.wkupint ==> ends_with_clear(
                bus,
                l,
                ints.enumdne,
                !ints.enumdne && ints.usbsusp,
                !ints.enumdne && !ints.usbsusp,
            )
            &&& ints.enumdne ==> {
                &&& n == 4
                &&& l[0] == Action::Probe(Probe::EnumSpeed)
                &&& l[1] is ModifyDctl
                &&& l[1]->ModifyDctl_0.cginak == Some(true)
                &&& l[1]->ModifyDctl_0.sdis is None
            }
        }),
{
}

/// A session request is acknowledged at once, and all interrupts are unmasked after it. Where it is
/// reported, or an OTG interrupt is to be looked into, nothing else is done before.
pub proof fn law_session_request_is_cleared<const N: usize>(
    bus: Bus<N>,
    state: State<N>,
    ints: Gintsts,
    r: PollStep,
)
    requires
        call_ensures(Bus::<N>::poll_interrupts, (&bus, &state, ints), r),
    ensures
        ints.srqint ==> {
            &&& r.actions@.len() >= 2
            &&& r.actions@[0] is WriteGintsts
            &&& clears_only(r.actions@[0]->WriteGintsts_0, true, false, false, false, false)
            &&& unmasks_all(bus, r.actions@[1])
        },
        r.outcome == PollOutcome::Ready(Event::PowerDetected) || r.outcome is ReadGotgint
            ==> r.actions@.len() == if ints.srqint {
            2nat
        } else {
            0
        },
{
    let s = bus.session_actions(ints);
    if ints.srqint {
        assert(r.actions@[0] == s[0]);
        assert(r.actions@[1] == s[1]);
    }
}

/// Where an event is reported, its flag is cleared, and all interrupts are unmasked after it. The
/// end of the enumeration also sets the turnaround time for the speed, and clears the global IN NAK.
pub proof fn law_reported_events_are_cleared<const N: usize>(
    bus: Bus<N>,
    state: State<N>,
    ints: Gintsts,
    r: PollStep,
)
    requires
        call_ensures(Bus::<N>::poll_interrupts, (&bus, &state, ints), r),
    ensures
        r.outcome == PollOutcome::Ready(Event::Reset) ==> {
            let n = r.actions@.len() as int;
            &&& ends_with_clear(bus, r.actions@, true, false, false)
            &&& n >= 4
            &&& r.actions@[n - 4] == Action::Probe(Probe::EnumSpeed)
            &&& r.actions@[n - 3] is ModifyDctl
            &&& r.actions@[n - 3]->ModifyDctl_0.cginak == Some(true)
            &&& r.actions@[n - 3]->ModifyDctl_0.sdis is None
        },
        r.outcome == PollOutcome::Ready(Event::Suspend) ==> ends_with_clear(
            bus,
            r.actions@,
            false,
            true,
            false,
        ),
        r.outcome == PollOutcome::Ready(Event::Resume) ==> ends_with_clear(
            bus,
            r.actions@,
            false,
            false,
            true,
        ),
{
    let reset = if ints.usbrst {
        bus.reset_actions(state.setup_dma_buf as u32)
    } else {
        Seq::empty()
    };
    let s = bus.session_actions(ints);
    let event = bus.event_actions(ints);
    if !(ints.srqint && bus.config.vbus_detection) && !ints.otgint && (ints.enumdne
        || ints.usbsusp || ints.wkupint) {
        assert(r.actions@ == s + (reset + event));
        lemma_event_shape(bus, ints);
        lemma_tail(s, reset, event, 1);
        lemma_tail(s, reset, event, 2);
        if ints.enumdne {
            lemma_tail(s, reset, event, 3);
            lemma_tail(s, reset, event, 4);
        }
    }
}

/// A pending bus reset is handled, as [`Bus::reset`] does it, exactly where nothing about VBUS is
/// reported or looked into first; apart from it, only the events' own actions are done.
pub proof fn law_pending_reset_is_handled<const N: usize>(
    bus: Bus<N>,
    state: State<N>,
    ints: Gintsts,
    r: PollStep,
    reset: Vec<Action>,
)
    requires
        call_ensures(Bus::<N>::poll_interrupts, (&bus, &state, ints), r),
        call_ensures(Bus::<N>::reset, (&bus, &state), reset),
        bus.wf(),
        bus.configurable(),
        !(ints.srqint && bus.config.vbus_detection),
        !ints.otgint,
    ensures
        ({
            let before: int = if ints.srqint {
                2
            } else {
                0
            };
            let handled: int = if ints.usbrst {
                reset@.len() as int
            } else {
                0
            };
            let after: int = if ints.enumdne {
                4
            } else if ints.usbsusp || ints.wkupint {
                2
            } else {
                0
            };
            &&& r.actions@.len() == before + handled + after
            &&& ints.usbrst ==> r.actions@.subrange(before, before + reset@.len()) == reset@
        }),
{
    let s = bus.session_actions(ints);
    if ints.usbrst {
        assert(r.actions@.subrange(s.len() as int, (s.len() + reset@.len()) as int) =~= reset@);
    }
}

/// After an OTG interrupt has been looked into, its flags are written back and all interrupts
/// unmasked. At the reported end of a session every endpoint is then disabled, as by
/// [`Bus::disable_all_endpoints`]; else everything goes on as if there had been no OTG interrupt.
pub proof fn law_otg_interrupts_are_acknowledged<const N: usize>(
    bus: Bus<N>,
    state: State<N>,
    ints: Gintsts,
    otgints: Gotgint,
    r: PollStep,
    disabled: Vec<Action>,
    quiet: Gintsts,
    other: PollStep,
)
    requires
        call_ensures(Bus::<N>::poll_otg, (&bus, &state, ints, otgints), r),
        call_ensures(Bus::<N>::disable_all_endpoints, (&bus,), disabled),
        quiet == (Gintsts { srqint: false, otgint: false, ..ints }),
        call_ensures(Bus::<N>::poll_interrupts, (&bus, &state, quiet), other),
    ensures
        r.actions@.len() >= 2,
        r.actions@[0] == Action::WriteGotgint(otgints.bits),
        unmasks_all(bus, r.actions@[1]),
        otgints.sedet && bus.config.vbus_detection ==> r.actions@.skip(2) == disabled@,
        !(otgints.sedet && bus.config.vbus_detection) ==> r.actions@.skip(2) == other.actions@
            && r.outcome == other.outcome,
{
    let otg = bus.otg_actions(otgints);
    assert(r.actions@[0] == otg[0]);
    assert(r.actions@[1] == otg[1]);
    if otgints.sedet && bus.config.vbus_detection {
        assert(r.actions@.skip(2) =~= disabled@);
    } else {
        lemma_late_ignores_vbus(bus, ints, quiet, state.setup_dma_buf as u32);
        assert(r.actions@.skip(2) =~= bus.late_actions(ints, state.setup_dma_buf as u32));
        assert(other.actions@ =~= bus.late_actions(quiet, state.setup_dma_buf as u32));
    }
}

/// What is done about other interrupts does not depend on those about VBUS.
proof fn lemma_late_ignores_vbus<const N: usize>(
    bus: Bus<N>,
    ints: Gintsts,
    quiet: Gintsts,
    addr: u32,
)
    requires
        quiet == (Gintsts { srqint: false, otgint: false, ..ints }),
    ensures
        bus.late_actions(ints, addr) == bus.late_actions(quiet, addr),
        Bus::<N>::late_outcome(ints) == Bus::<N>::late_outcome(quiet),
{
}

/// The core can be configured exactly where endpoint 0 has one of its four sizes and no endpoint
/// lies beyond the sixteen that have interrupts.
pub proof fn law_configurable_is_tested<const N: usize>(bus: Bus<N>, r: bool)
    requires
        call_ensures(Bus::<N>::is_configurable, (&bus,), r),
        N > 0,
    ensures
        r <==> {
            &&& bus.ep_in@[0] is Some ==> bus.ep_in@[0]->0.max_packet_size == 8
                || bus.ep_in@[0]->0.max_packet_size == 16 || bus.ep_in@[0]->0.max_packet_size == 32
                || bus.ep_in@[0]->0.max_packet_size == 64
            &&& bus.ep_out@[0] is Some ==> bus.ep_out@[0]->0.max_packet_size == 8
                || bus.ep_out@[0]->0.max_packet_size == 16 || bus.ep_out@[0]->0.max_packet_size
                == 32 || bus.ep_out@[0]->0.max_packet_size == 64
            &&& forall|i: int|
                16 <= i < N ==> (#[trigger] bus.ep_in@[i]) is None
            &&& forall|i: int|
                16 <= i < N ==> (#[trigger] bus.ep_out@[i]) is None
        },
{
}

/// The PHY type is the instance's; enabling and disabling the peripheral does nothing; a remote
/// wakeup is never supported.
pub proof fn law_fixed_answers<const N: usize>(
    bus: Bus<N>,
    phy: PhyType,
    on: Vec<Action>,
    off: Vec<Action>,
    wakeup: Result<(), Unsupported>,
)
    requires
        call_ensures(Bus::<N>::phy_type, (&bus,), phy),
        call_ensures(Bus::<N>::enable, (&bus,), on),
        call_ensures(Bus::<N>::disable, (&bus,), off),
        call_ensures(Bus::<N>::remote_wakeup, (&bus,), wakeup),
    ensures
        phy == bus.instance.phy_type,
        on@.len() == 0,
        off@.len() == 0,
        wakeup is Err,
{
}

} // verus!
