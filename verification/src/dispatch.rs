//! What follows from a probe, once its value has been fetched.
use crate::action::{Action, Probe};
use crate::bus::{
    abort_in, abort_in_actions, cancel_actions, cancel_transfer, turnaround, turnaround_actions,
};
use crate::config::Features;
use crate::endpoint::{frame_parity, frame_parity_actions};
use crate::fifo::{packet_words, word_count};
use crate::interrupt::{
    completes, delivers, in_actions, in_flags, in_mask, is_rx_valid, keeps_setup, notes_out,
    notes_rx, out_actions, out_flags, out_mask, out_words, out_words_actions, packet_fits,
    pending_in, pending_out, remaining, rx_actions, rx_level, rx_level_actions, rx_status, rx_valid,
    setup_buffer, setup_buffer_actions, setup_words, takes_setup, tx_pending, tx_pending_actions,
};
use crate::registers::{Diepint, Doepint, RxStatus};
use crate::state::{State, EP_OUT_BUFFER_EMPTY};
use vstd::prelude::*;

verus! {

/// A value that was fetched for a [`Probe`], by the name of the probe.
#[derive(Debug)]
pub enum Reading {
    /// RXFLVL of GINTSTS.
    RxLevel(bool),
    /// The next entry of GRXSTSP.
    RxStatus(RxStatus),
    /// PKTCNT of DIEPTSIZ of the endpoint.
    TxPending(u16),
    /// Two words popped from the receive FIFO.
    SetupWords(u32, u32),
    /// The words of a packet popped from the receive FIFO.
    OutWords(Vec<u32>),
    /// The IN half of DAINT.
    InMask(u16),
    /// DIEPINT of the endpoint.
    InFlags(Diepint),
    /// The OUT half of DAINT.
    OutMask(u16),
    /// DOEPINT of the endpoint.
    OutFlags(Doepint),
    /// The first eight bytes of the SETUP DMA buffer.
    SetupBuffer([u8; 8]),
    /// XFRSIZ of DOEPTSIZ of the endpoint.
    Remaining(u32),
    /// EPENA of the endpoint's control register.
    CancelTransfer(bool),
    /// EPENA of DIEPCTL of the endpoint.
    AbortIn(bool),
    /// The turnaround time for ENUMSPD of DSTS.
    EnumSpeed(u8),
    /// FNSOF of DSTS.
    FrameNumber(u16),
}

/// Whether a value is one for the probe, and one that the hardware may deliver: an entry of the
/// receive queue is valid, a packet has as many words as it needs and fits its buffer, and a
/// completed transfer is for an endpoint that there is.
pub open spec fn answerable<const N: usize>(
    state: State<N>,
    memory_len: int,
    ep_count: int,
    probe: Probe,
    reading: Reading,
) -> bool {
    match (probe, reading) {
        (Probe::RxLevel, Reading::RxLevel(_)) => true,
        (Probe::RxStatus, Reading::RxStatus(status)) => rx_valid(status, ep_count),
        (Probe::TxPending(_), Reading::TxPending(_)) => true,
        (Probe::SetupWords, Reading::SetupWords(_, _)) => true,
        (Probe::OutWords { ep, len }, Reading::OutWords(words)) => {
            &&& ep < N
            &&& len <= u16::MAX
            &&& words@.len() == word_count(len as int)
            &&& packet_fits(state.ep_states@[ep as int], len as int, memory_len)
        },
        (Probe::InMask, Reading::InMask(_)) => true,
        (Probe::InFlags(_), Reading::InFlags(_)) => true,
        (Probe::OutMask, Reading::OutMask(_)) => true,
        (Probe::OutFlags(_), Reading::OutFlags(_)) => true,
        (Probe::SetupBuffer, Reading::SetupBuffer(_)) => true,
        (Probe::Remaining(ep), Reading::Remaining(_)) => ep < N,
        (Probe::CancelTransfer(_, _), Reading::CancelTransfer(_)) => true,
        (Probe::AbortIn(_), Reading::AbortIn(_)) => true,
        (Probe::EnumSpeed, Reading::EnumSpeed(_)) => true,
        (Probe::FrameNumber(_, _), Reading::FrameNumber(_)) => true,
        _ => false,
    }
}

/// The actions that follow from a probe, given its value and the state before.
pub open spec fn answer_actions<const N: usize>(
    state: State<N>,
    features: Features,
    probe: Probe,
    reading: Reading,
) -> Seq<Action> {
    match (probe, reading) {
        (Probe::RxLevel, Reading::RxLevel(rxflvl)) => rx_level_actions(rxflvl),
        (Probe::RxStatus, Reading::RxStatus(status)) => rx_actions(status),
        (Probe::TxPending(ep), Reading::TxPending(pktcnt)) => tx_pending_actions(ep, pktcnt),
        (Probe::OutWords { ep, len }, Reading::OutWords(_)) => out_words_actions(
            state.ep_states@[ep as int],
            ep,
        ),
        (Probe::InMask, Reading::InMask(mask)) => pending_in(mask),
        (Probe::InFlags(ep), Reading::InFlags(ints)) => in_actions(ep, ints),
        (Probe::OutMask, Reading::OutMask(mask)) => pending_out(mask),
        (Probe::OutFlags(ep), Reading::OutFlags(ints)) => out_actions(
            ep,
            ints,
            features.dma && state.dma_enabled,
            state.setup_dma_buf,
        ),
        (Probe::SetupBuffer, Reading::SetupBuffer(_)) => setup_buffer_actions(
            state.setup_dma_buf as u32,
        ),
        (Probe::Remaining(ep), Reading::Remaining(_)) => seq![Action::WakeOut(ep)],
        (Probe::CancelTransfer(dir, ep), Reading::CancelTransfer(epena)) => cancel_actions(
            dir,
            ep,
            epena,
        ),
        (Probe::AbortIn(ep), Reading::AbortIn(epena)) => abort_in_actions(ep, epena),
        (Probe::EnumSpeed, Reading::EnumSpeed(trdt)) => turnaround_actions(trdt),
        (Probe::FrameNumber(dir, ep), Reading::FrameNumber(fnsof)) => frame_parity_actions(
            dir,
            ep,
            fnsof,
        ),
        _ => Seq::empty(),
    }
}

/// Whether the state and the packet memory have become what follows from a probe, given its value.
pub open spec fn answers<const N: usize>(
    before: State<N>,
    after: State<N>,
    memory: Seq<u8>,
    memory_after: Seq<u8>,
    features: Features,
    probe: Probe,
    reading: Reading,
) -> bool {
    match (probe, reading) {
        (Probe::OutWords { ep, len }, Reading::OutWords(words)) => delivers(
            before,
            after,
            memory,
            memory_after,
            ep as int,
            len as int,
            words@,
        ),
        _ => {
            &&& memory_after == memory
            &&& match (probe, reading) {
                (Probe::RxStatus, Reading::RxStatus(status)) => notes_rx(
                    before,
                    after,
                    features,
                    status,
                ),
                (Probe::SetupWords, Reading::SetupWords(word0, word1)) => keeps_setup(
                    before,
                    after,
                    word0,
                    word1,
                ),
                (Probe::OutFlags(ep), Reading::OutFlags(ints)) => notes_out(
                    before,
                    after,
                    features,
                    ep,
                    ints,
                ),
                (Probe::SetupBuffer, Reading::SetupBuffer(packet)) => takes_setup(
                    before,
                    after,
                    packet@,
                ),
                (Probe::Remaining(ep), Reading::Remaining(xfrsiz)) => completes(
                    before,
                    after,
                    ep as int,
                    xfrsiz,
                ),
                _ => after == before,
            }
        },
    }
}

/// Tests whether a value is one for the probe, and one that the hardware may deliver.
pub fn is_answerable<const MAX_EP_COUNT: usize>(
    state: &State<MAX_EP_COUNT>,
    memory_len: usize,
    ep_count: usize,
    probe: Probe,
    reading: &Reading,
) -> (r: bool)
    ensures
        r == answerable(*state, memory_len as int, ep_count as int, probe, *reading),
{
    match (probe, reading) {
        (Probe::RxLevel, Reading::RxLevel(_)) => true,
        (Probe::RxStatus, Reading::RxStatus(status)) => is_rx_valid(*status, ep_count),
        (Probe::TxPending(_), Reading::TxPending(_)) => true,
        (Probe::SetupWords, Reading::SetupWords(_, _)) => true,
        (Probe::OutWords { ep, len }, Reading::OutWords(words)) => {
            if ep >= MAX_EP_COUNT || len > u16::MAX as usize || words.len() != packet_words(len) {
                return false;
            }
            let entry = state.ep_states[ep];
            entry.out_size != EP_OUT_BUFFER_EMPTY || (len <= entry.out_buffer.len
                && entry.out_buffer.len <= memory_len && entry.out_buffer.offset <= memory_len
                - entry.out_buffer.len)
        },
        (Probe::InMask, Reading::InMask(_)) => true,
        (Probe::InFlags(_), Reading::InFlags(_)) => true,
        (Probe::OutMask, Reading::OutMask(_)) => true,
        (Probe::OutFlags(_), Reading::OutFlags(_)) => true,
        (Probe::SetupBuffer, Reading::SetupBuffer(_)) => true,
        (Probe::Remaining(ep), Reading::Remaining(_)) => ep < MAX_EP_COUNT,
        (Probe::CancelTransfer(_, _), Reading::CancelTransfer(_)) => true,
        (Probe::AbortIn(_), Reading::AbortIn(_)) => true,
        (Probe::EnumSpeed, Reading::EnumSpeed(_)) => true,
        (Probe::FrameNumber(_, _), Reading::FrameNumber(_)) => true,
        _ => false,
    }
}

/// Hands the value of a probe to the function that the probe names.
///
/// What is returned is to be performed in the probe's place.
pub fn follow<const MAX_EP_COUNT: usize>(
    state: &mut State<MAX_EP_COUNT>,
    memory: &mut [u8],
    features: Features,
    ep_count: usize,
    probe: Probe,
    reading: &Reading,
) -> (r: Vec<Action>)
    requires
        answerable(
            *old(state),
            old(memory)@.len() as int,
            ep_count as int,
            probe,
            *reading,
        ),
    ensures
        r@ == answer_actions(*old(state), features, probe, *reading),
        answers(
            *old(state),
            *final(state),
            old(memory)@,
            final(memory)@,
            features,
            probe,
            *reading,
        ),
        old(state).wf(old(memory)@.len() as int) ==> final(state).wf(old(memory)@.len() as int),
{
    match (probe, reading) {
        (Probe::RxLevel, Reading::RxLevel(rxflvl)) => rx_level(*rxflvl),
        (Probe::RxStatus, Reading::RxStatus(status)) => rx_status(
            state,
            features,
            *status,
            ep_count,
        ),
        (Probe::TxPending(ep), Reading::TxPending(pktcnt)) => tx_pending(ep, *pktcnt),
        (Probe::SetupWords, Reading::SetupWords(word0, word1)) => {
            setup_words(state, *word0, *word1);
            Vec::new()
        },
        (Probe::OutWords { ep, len }, Reading::OutWords(words)) => out_words(
            state,
            memory,
            ep,
            len,
            words.as_slice(),
        ),
        (Probe::InMask, Reading::InMask(mask)) => in_mask(*mask),
        (Probe::InFlags(ep), Reading::InFlags(ints)) => in_flags(ep, *ints),
        (Probe::OutMask, Reading::OutMask(mask)) => out_mask(*mask),
        (Probe::OutFlags(ep), Reading::OutFlags(ints)) => out_flags(state, features, ep, *ints),
        (Probe::SetupBuffer, Reading::SetupBuffer(packet)) => setup_buffer(state, *packet),
        (Probe::Remaining(ep), Reading::Remaining(xfrsiz)) => remaining(state, ep, *xfrsiz),
        (Probe::CancelTransfer(dir, ep), Reading::CancelTransfer(epena)) => cancel_transfer(
            dir,
            ep,
            *epena,
        ),
        (Probe::AbortIn(ep), Reading::AbortIn(epena)) => abort_in(ep, *epena),
        (Probe::EnumSpeed, Reading::EnumSpeed(trdt)) => turnaround(*trdt),
        (Probe::FrameNumber(dir, ep), Reading::FrameNumber(fnsof)) => frame_parity(
            dir,
            ep,
            *fnsof,
        ),
        _ => Vec::new(),
    }
}

} // verus!
