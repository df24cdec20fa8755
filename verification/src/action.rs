//! What the driver asks of the hardware.
//!
//! The operations of this library return lists of [`Action`]s, to be performed in order. Most of
//! them are single register accesses. A [`Probe`] stands for a value that has to be fetched from
//! the hardware first: [`crate::dispatch::follow`] hands the value to the function that the probe
//! names, and the actions that this function returns are performed in the probe's place.
use crate::registers::{
    Daintmsk, Dcfg, Dctl, Dieptsiz, Dieptxf, Doepmsk, Doeptsiz, Epctl, Gahbcfg, GccfgV1, GccfgV2,
    GccfgV3, Gintmsk, Gintsts, Gotgctl, Grstctl, Gusbcfg,
};
use crate::types::Direction;
use vstd::prelude::*;

verus! {

/// A value to fetch from the hardware, and the function that takes it.
#[derive(Copy, Clone, Debug, PartialEq, Eq)]
pub enum Probe {
    /// RXFLVL of GINTSTS, for [`crate::interrupt::rx_level`].
    RxLevel,
    /// The next entry of GRXSTSP, for [`crate::interrupt::rx_status`].
    RxStatus,
    /// PKTCNT of DIEPTSIZ of the endpoint, for [`crate::interrupt::tx_pending`].
    TxPending(usize),
    /// Two words popped from the receive FIFO, for [`crate::interrupt::setup_words`].
    SetupWords,
    /// The words of a packet popped from the receive FIFO, for [`crate::interrupt::out_words`].
    OutWords {
        /// Endpoint number.
        ep: usize,
        /// Length of the packet, in bytes.
        len: usize,
    },
    /// The IN half of DAINT, for [`crate::interrupt::in_mask`].
    InMask,
    /// DIEPINT of the endpoint, for [`crate::interrupt::in_flags`].
    InFlags(usize),
    /// The OUT half of DAINT, for [`crate::interrupt::out_mask`].
    OutMask,
    /// DOEPINT of the endpoint, for [`crate::interrupt::out_flags`].
    OutFlags(usize),
    /// The first eight bytes of the SETUP DMA buffer, for [`crate::interrupt::setup_buffer`].
    SetupBuffer,
    /// XFRSIZ of DOEPTSIZ of the endpoint, for [`crate::interrupt::remaining`].
    Remaining(usize),
    /// EPENA of the endpoint's control register, for [`crate::bus::cancel_transfer`].
    CancelTransfer(Direction, usize),
    /// EPENA of DIEPCTL of the endpoint, for [`crate::bus::abort_in`].
    AbortIn(usize),
    /// ENUMSPD of DSTS, turned into a turnaround time, for [`crate::bus::turnaround`].
    EnumSpeed,
    /// FNSOF of DSTS, for [`crate::endpoint::frame_parity`].
    FrameNumber(Direction, usize),
}

/// One step of a hardware program.
#[derive(Copy, Clone, Debug, PartialEq, Eq)]
pub enum Action {
    /// Write GINTSTS with the flags to clear.
    WriteGintsts(Gintsts),
    /// Write GINTSTS with these bits.
    WriteGintstsBits(u32),
    /// Write GINTMSK.
    WriteGintmsk(Gintmsk),
    /// Write GAHBCFG.
    WriteGahbcfg(Gahbcfg),
    /// Write GUSBCFG.
    WriteGusbcfg(Gusbcfg),
    /// Update GUSBCFG.
    ModifyGusbcfg(Gusbcfg),
    /// Write GRSTCTL.
    WriteGrstctl(Grstctl),
    /// Update GRSTCTL.
    ModifyGrstctl(Grstctl),
    /// Set RXFD of GRXFSIZ.
    ModifyGrxfsiz(u16),
    /// Write DIEPTXF0, the transmit FIFO of endpoint 0.
    WriteDieptxf0(Dieptxf),
    /// Write DIEPTXF by its number, which is one less than that of its endpoint.
    WriteDieptxf(usize, Dieptxf),
    /// Update GCCFG in its first layout.
    ModifyGccfgV1(GccfgV1),
    /// Update GCCFG in its second layout.
    ModifyGccfgV2(GccfgV2),
    /// Update GCCFG in its third layout.
    ModifyGccfgV3(GccfgV3),
    /// Update GOTGCTL.
    ModifyGotgctl(Gotgctl),
    /// Write GOTGINT with these bits.
    WriteGotgint(u32),
    /// Write DCFG.
    WriteDcfg(Dcfg),
    /// Update DCFG.
    ModifyDcfg(Dcfg),
    /// Write DCTL.
    WriteDctl(Dctl),
    /// Update DCTL.
    ModifyDctl(Dctl),
    /// Write DIEPMSK with this value of XFRCM.
    WriteDiepmsk(bool),
    /// Write DOEPMSK.
    WriteDoepmsk(Doepmsk),
    /// Update DAINTMSK.
    ModifyDaintmsk(Daintmsk),
    /// Update INEPTXFEM in DIEPEMPMSK so that an endpoint's FIFO-empty interrupt is enabled or
    /// not, see [`crate::table::fifo_empty_mask`].
    ModifyDiepempmsk(usize, bool),
    /// Write DIEPCTL of an endpoint.
    WriteDiepctl(usize, Epctl),
    /// Update DIEPCTL of an endpoint.
    ModifyDiepctl(usize, Epctl),
    /// Write DIEPINT of an endpoint with these bits.
    WriteDiepint(usize, u32),
    /// Read DIEPINT of an endpoint and write the same bits back.
    AckDiepint(usize),
    /// Write DIEPTSIZ of an endpoint.
    WriteDieptsiz(usize, Dieptsiz),
    /// Write DIEPDMA of an endpoint.
    WriteDiepdma(usize, u32),
    /// Write DOEPCTL of an endpoint.
    WriteDoepctl(usize, Epctl),
    /// Update DOEPCTL of an endpoint.
    ModifyDoepctl(usize, Epctl),
    /// Write DOEPINT of an endpoint with these bits.
    WriteDoepint(usize, u32),
    /// Write DOEPTSIZ of an endpoint.
    WriteDoeptsiz(usize, Doeptsiz),
    /// Update DOEPTSIZ of an endpoint.
    ModifyDoeptsiz(usize, Doeptsiz),
    /// Write DOEPDMA of an endpoint.
    WriteDoepdma(usize, u32),
    /// Write one word to the transmit FIFO of an endpoint.
    WriteFifo(usize, u32),
    /// Poll GRSTCTL until AHBIDL is set, this many times at most.
    WaitAhbIdle(u32),
    /// Poll GRSTCTL until CSRST is clear, this many times at most.
    WaitCoreReset(u32),
    /// Poll GRSTCTL until RXFFLSH and TXFFLSH are clear.
    WaitFifoFlush,
    /// Poll GRSTCTL until TXFFLSH is clear.
    WaitTxFlush,
    /// Poll DIEPCTL of an endpoint until EPENA is clear, this many times at most.
    WaitInDisabled(usize, u32),
    /// Keep interrupts out until the next [`Action::ExitCritical`].
    EnterCritical,
    /// Let interrupts in again.
    ExitCritical,
    /// Wake the task that waits for the bus.
    WakeBus,
    /// Wake the task that waits for an IN endpoint.
    WakeIn(usize),
    /// Wake the task that waits for an OUT endpoint.
    WakeOut(usize),
    /// Invalidate the data cache for the range, see [`crate::cache::dcache_invalidate_range`].
    InvalidateCache {
        /// First address.
        addr: usize,
        /// Length, in bytes.
        len: usize,
    },
    /// Clean the data cache for the range, see [`crate::cache::dcache_clean_range`].
    CleanCache {
        /// First address.
        addr: usize,
        /// Length, in bytes.
        len: usize,
    },
    /// Fetch a value and perform what follows from it.
    Probe(Probe),
}

/// The actions `f(0)`, `f(1)`, up to `f(n - 1)`, one after the other.
pub open spec fn each(n: int, f: spec_fn(int) -> Seq<Action>) -> Seq<Action>
    decreases n,
{
    if n <= 0 {
        Seq::empty()
    } else {
        each(n - 1, f) + f(n - 1)
    }
}

/// Whether interrupts are kept out while the action at `i` is performed: the last bracket before it
/// opens a critical section.
pub open spec fn guarded(actions: Seq<Action>, i: int) -> bool
    decreases i,
{
    if i <= 0 || i > actions.len() {
        false
    } else {
        match actions[i - 1] {
            Action::EnterCritical => true,
            Action::ExitCritical => false,
            _ => guarded(actions, i - 1),
        }
    }
}

} // verus!
