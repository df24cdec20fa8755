//! Endpoints and the transfers on them.
use crate::action::{Action, Probe};
use crate::fifo::{packed, packet_word, packet_words, word_count, ByteOrder};
use crate::registers::{Dieptsiz, Doeptsiz, EpStatus, Epctl};
use crate::state::{EpState, State, EP_OUT_BUFFER_EMPTY};
use crate::types::{Direction, EndpointError, EndpointInfo, EndpointType};
use core::marker::PhantomData;
use vstd::prelude::*;

verus! {

/// USB endpoint direction, as a type.
pub trait Dir {
    /// The direction.
    spec fn direction() -> Direction;

    /// Returns the direction.
    fn dir() -> (r: Direction)
        ensures
            r == Self::direction(),
    ;
}

/// Marker type for the "IN" direction.
pub enum In {
    /// The direction.
    Marker,
}

impl Dir for In {
    open spec fn direction() -> Direction {
        Direction::In
    }

    fn dir() -> (r: Direction) {
        Direction::In
    }
}

/// Marker type for the "OUT" direction.
pub enum Out {
    /// The direction.
    Marker,
}

impl Dir for Out {
    open spec fn direction() -> Direction {
        Direction::Out
    }

    fn dir() -> (r: Direction) {
        Direction::Out
    }
}

/// USB endpoint.
pub struct Endpoint<D> {
    /// The direction.
    pub phantom: PhantomData<D>,
    /// What is known of the endpoint.
    pub info: EndpointInfo,
    /// Whether transfers go through the DMA engine.
    pub dma_enable: bool,
}

/// Address that is handed to the DMA engine for a packet without data: it is not read, but has to
/// be one that the engine can reach.
pub const ZERO_LENGTH_DMA_ADDR: u32 = 0x0020_0000;

/// The actions that set an isochronous endpoint to the parity of the next frame.
pub open spec fn frame_parity_actions(dir: Direction, index: usize, fnsof: u16) -> Seq<Action> {
    let control = if fnsof % 2 == 1 {
        Epctl { sd0pid_sevnfrm: Some(true), ..Epctl::none() }
    } else {
        Epctl { sd1pid_soddfrm: Some(true), ..Epctl::none() }
    };
    match dir {
        Direction::Out => seq![Action::ModifyDoepctl(index, control)],
        Direction::In => seq![Action::ModifyDiepctl(index, control)],
    }
}

/// Sets the even/odd frame bit of an isochronous endpoint to correspond with the next frame's
/// number, from the number of the current frame.
pub fn frame_parity(dir: Direction, index: usize, fnsof: u16) -> (r: Vec<Action>)
    ensures
        r@ == frame_parity_actions(dir, index, fnsof),
{
    assert(fnsof & 0x01 == fnsof % 2) by (bit_vector);
    let frame_is_odd = fnsof & 0x01 == 1;
    let control = if frame_is_odd {
        Epctl { sd0pid_sevnfrm: Some(true), ..Epctl::none() }
    } else {
        Epctl { sd1pid_soddfrm: Some(true), ..Epctl::none() }
    };
    match dir {
        Direction::Out => vec![Action::ModifyDoepctl(index, control)],
        Direction::In => vec![Action::ModifyDiepctl(index, control)],
    }
}

/// The probe for the frame number, where the endpoint of this direction is isochronous.
pub open spec fn parity_probe(dir: Direction, info: EndpointInfo) -> Seq<Action> {
    if info.ep_type is Isochronous {
        seq![Action::Probe(Probe::FrameNumber(dir, info.addr.number() as usize))]
    } else {
        Seq::empty()
    }
}

impl<D> Endpoint<D> {
    /// Number of the endpoint.
    pub open spec fn number(self) -> int {
        self.info.addr.number()
    }

    /// Gets what is known of the endpoint.
    pub fn info(&self) -> (r: &EndpointInfo)
        ensures
            *r == self.info,
    {
        &self.info
    }

    /// Tests, by its control register, whether the endpoint has been enabled.
    pub fn wait_enabled(&self, status: EpStatus) -> (r: bool)
        ensures
            r == status.usbaep,
    {
        status.usbaep
    }
}

/// What has come of waiting for a packet.
#[derive(Copy, Clone, Debug, PartialEq, Eq, Structural)]
pub enum ReadPoll {
    /// No packet has been received yet.
    Pending,
    /// There will be no packet.
    Failed(EndpointError),
    /// A packet of this length can be taken.
    Packet(usize),
}

/// One step of waiting for a packet.
pub struct ReadStep {
    /// What is to be done before the packet is taken.
    pub actions: Vec<Action>,
    /// What has come of it.
    pub poll: ReadPoll,
}

/// What comes of waiting for a packet, for a buffer of `buf_len` bytes.
pub open spec fn read_outcome(ep: EpState, usbaep: bool, buf_len: int) -> ReadPoll {
    if !usbaep {
        ReadPoll::Failed(EndpointError::Disabled)
    } else if !ep.full() {
        ReadPoll::Pending
    } else if ep.out_size > buf_len {
        ReadPoll::Failed(EndpointError::BufferOverflow)
    } else {
        ReadPoll::Packet(ep.out_size as usize)
    }
}

/// The caller's buffer after a packet was copied to its start.
pub open spec fn delivered(buf: Seq<u8>, memory: Seq<u8>, offset: int, len: int) -> Seq<u8> {
    memory.subrange(offset, offset + len) + buf.skip(len)
}

impl Endpoint<Out> {
    /// The actions that let the DMA engine receive one packet.
    pub open spec fn arm_dma_actions(self, addr: usize) -> Seq<Action> {
        let index = self.number() as usize;
        seq![
            Action::EnterCritical,
            Action::ModifyDoeptsiz(
                index,
                Doeptsiz {
                    xfrsiz: Some(self.info.max_packet_size as u32),
                    pktcnt: Some(1),
                    ..Doeptsiz::none()
                },
            ),
            Action::WriteDoepdma(index, addr as u32),
            Action::ModifyDoepctl(
                index,
                Epctl { cnak: Some(true), epena: Some(true), ..Epctl::none() },
            ),
            Action::ExitCritical,
        ]
    }

    /// The actions that let the core receive one packet into its FIFO.
    pub open spec fn arm_fifo_actions(self) -> Seq<Action> {
        let index = self.number() as usize;
        seq![
            Action::EnterCritical,
            Action::ModifyDoeptsiz(
                index,
                Doeptsiz {
                    xfrsiz: Some(self.info.max_packet_size as u32),
                    pktcnt: Some(1),
                    ..Doeptsiz::none()
                },
            ),
        ] + parity_probe(Direction::Out, self.info) + seq![
            Action::ModifyDoepctl(index, Epctl { cnak: Some(true), ..Epctl::none() }),
            Action::ExitCritical,
        ]
    }

    /// Lets the DMA engine receive one packet.
    fn arm_dma<const N: usize>(&self, state: &mut State<N>) -> (r: Vec<Action>)
        requires
            self.number() < N,
        ensures
            r@ == self.arm_dma_actions(old(state).ep_states@[self.number()].out_buffer.addr),
            final(state).same_but_endpoint(*old(state), self.number()),
            final(state).ep_states@[self.number()] == (EpState {
                out_xfer_size: self.info.max_packet_size,
                ..old(state).ep_states@[self.number()]
            }),
    {
        let index: usize = self.info.addr.index();
        let mut entry = state.ep_states[index];
        // for the length calculation in the interrupt handler
        entry.out_xfer_size = self.info.max_packet_size;
        state.set_endpoint(index, entry);
        vec![
            Action::EnterCritical,
            Action::ModifyDoeptsiz(
                index,
                Doeptsiz {
                    xfrsiz: Some(self.info.max_packet_size as u32),
                    pktcnt: Some(1),
                    ..Doeptsiz::none()
                },
            ),
            Action::WriteDoepdma(index, entry.out_buffer.addr as u32),
            Action::ModifyDoepctl(
                index,
                Epctl { cnak: Some(true), epena: Some(true), ..Epctl::none() },
            ),
            Action::ExitCritical,
        ]
    }

    /// Begins to read a packet: with DMA, a transfer is set up unless a packet waits already.
    pub fn read<const N: usize>(&self, state: &mut State<N>) -> (r: Vec<Action>)
        requires
            self.number() < N,
        ensures
            self.dma_enable && !old(state).ep_states@[self.number()].full() ==> {
                &&& r@ == self.arm_dma_actions(
                    old(state).ep_states@[self.number()].out_buffer.addr,
                )
                &&& final(state).same_but_endpoint(*old(state), self.number())
                &&& final(state).ep_states@[self.number()] == (EpState {
                    out_xfer_size: self.info.max_packet_size,
                    ..old(state).ep_states@[self.number()]
                })
            },
            !self.dma_enable || old(state).ep_states@[self.number()].full() ==> {
                &&& r@ == Seq::<Action>::empty()
                &&& *final(state) == *old(state)
            },
            forall|n: int|
                #![trigger old(state).wf(n)]
                old(state).wf(n) && self.info.max_packet_size <= old(
                    state,
                ).ep_states@[self.number()].out_buffer.len ==> final(state).wf(n),
    {
        if self.dma_enable && state.ep_states[self.info.addr.index()].out_size
            == EP_OUT_BUFFER_EMPTY {
            self.arm_dma(state)
        } else {
            Vec::new()
        }
    }

    /// Tests whether a packet can be taken into a buffer of `buf_len` bytes.
    ///
    /// A packet that does not fit stays where it is.
    pub fn read_poll<const N: usize>(
        &self,
        state: &State<N>,
        doepctl: EpStatus,
        buf_len: usize,
    ) -> (r: ReadStep)
        requires
            self.number() < N,
        ensures
            r.poll == read_outcome(state.ep_states@[self.number()], doepctl.usbaep, buf_len as int),
            r.actions@ == if r.poll is Packet && self.dma_enable && r.poll->Packet_0 > 0 {
                seq![
                    Action::InvalidateCache {
                        addr: state.ep_states@[self.number()].out_buffer.addr,
                        len: r.poll->Packet_0,
                    },
                ]
            } else {
                Seq::empty()
            },
    {
        if !doepctl.usbaep {
            return ReadStep {
                actions: Vec::new(),
                poll: ReadPoll::Failed(EndpointError::Disabled),
            };
        }
        let entry = state.ep_states[self.info.addr.index()];
        let len: u16 = entry.out_size;
        if len == EP_OUT_BUFFER_EMPTY {
            return ReadStep { actions: Vec::new(), poll: ReadPoll::Pending };
        }
        if len as usize > buf_len {
            return ReadStep {
                actions: Vec::new(),
                poll: ReadPoll::Failed(EndpointError::BufferOverflow),
            };
        }
        let mut actions: Vec<Action> = Vec::new();
        if self.dma_enable && len > 0 {
            // the engine wrote behind the cache
            actions.push(
                Action::InvalidateCache { addr: entry.out_buffer.addr, len: len as usize },
            );
        }
        ReadStep { actions, poll: ReadPoll::Packet(len as usize) }
    }

    /// Whether the packet that waits for the endpoint has been taken into a buffer, and nothing else
    /// has changed.
    pub open spec fn takes<const N: usize>(
        self,
        before: State<N>,
        after: State<N>,
        memory: Seq<u8>,
        buf: Seq<u8>,
        buf_after: Seq<u8>,
    ) -> bool {
        let ep = before.ep_states@[self.number()];
        &&& after.same_but_endpoint(before, self.number())
        &&& after.ep_states@[self.number()] == EpState {
            out_size: EP_OUT_BUFFER_EMPTY,
            out_xfer_size: if self.dma_enable {
                self.info.max_packet_size
            } else {
                ep.out_xfer_size
            },
            ..ep
        }
        &&& buf_after == delivered(
            buf,
            memory,
            ep.out_buffer.offset as int,
            ep.out_size as int,
        )
    }

    /// Takes the packet that waits, releases its buffer, and lets the endpoint receive the next.
    pub fn read_packet<const N: usize>(
        &self,
        state: &mut State<N>,
        memory: &[u8],
        buf: &mut [u8],
    ) -> (r: Vec<Action>)
        requires
            self.number() < N,
            old(state).ep_states@[self.number()].full(),
            old(state).ep_states@[self.number()].wf(memory@.len() as int),
            old(state).ep_states@[self.number()].out_size <= old(buf)@.len(),
        ensures
            self.takes(*old(state), *final(state), memory@, old(buf)@, final(buf)@),
            r@ == if self.dma_enable {
                self.arm_dma_actions(old(state).ep_states@[self.number()].out_buffer.addr)
            } else {
                self.arm_fifo_actions()
            },
            forall|n: int|
                #![trigger old(state).wf(n)]
                old(state).wf(n) && self.info.max_packet_size <= old(
                    state,
                ).ep_states@[self.number()].out_buffer.len ==> final(state).wf(n),
    {
        let index: usize = self.info.addr.index();
        let mut entry = state.ep_states[index];
        let offset: usize = entry.out_buffer.offset;
        let len: usize = entry.out_size as usize;
        let memory_len: usize = memory.len();
        let ghost before = buf@;
        let mut i: usize = 0;
        while i < len
            invariant
                i <= len <= before.len(),
                buf@.len() == before.len(),
                offset + len <= memory@.len(),
                memory@.len() == memory_len,
                forall|j: int| 0 <= j < i ==> #[trigger] buf@[j] == memory@[offset + j],
                forall|j: int| i <= j < before.len() ==> #[trigger] buf@[j] == before[j],
            decreases len - i,
        {
            buf[i] = memory[offset + i];
            i = i + 1;
        }
        proof {
            assert(buf@ =~= delivered(before, memory@, offset as int, len as int));
        }
        // release the buffer
        entry.out_size = EP_OUT_BUFFER_EMPTY;
        state.set_endpoint(index, entry);
        if self.dma_enable {
            let actions = self.arm_dma(state);
            proof {
                assert(state.ep_states@ =~= old(state).ep_states@.update(
                    index as int,
                    state.ep_states@[index as int],
                ));
            }
            return actions;
        }
        let mut actions: Vec<Action> = Vec::new();
        actions.push(Action::EnterCritical);
        // receive one packet
        actions.push(
            Action::ModifyDoeptsiz(
                index,
                Doeptsiz {
                    xfrsiz: Some(self.info.max_packet_size as u32),
                    pktcnt: Some(1),
                    ..Doeptsiz::none()
                },
            ),
        );
        if self.info.ep_type == EndpointType::Isochronous {
            actions.push(Action::Probe(Probe::FrameNumber(Direction::Out, index)));
        }
        // clear NAK to indicate that the endpoint is ready to receive more data
        actions.push(Action::ModifyDoepctl(index, Epctl { cnak: Some(true), ..Epctl::none() }));
        actions.push(Action::ExitCritical);
        proof {
            assert(actions@ == self.arm_fifo_actions());
        }
        actions
    }
}

/// Stages of sending a packet.
#[derive(Copy, Clone, Debug, PartialEq, Eq, Structural)]
pub enum WriteStage {
    /// Wait for the previous transfer, see [`Endpoint::write_previous`].
    Previous,
    /// Wait for space in the FIFO, see [`Endpoint::write_space`].
    Space,
    /// Hand the packet over, see [`Endpoint::write_transfer`].
    Transfer,
    /// Wait for the DMA engine, see [`Endpoint::write_completion`].
    Completion,
    /// The packet has been sent.
    Done,
}

/// What has come of a stage of sending a packet.
#[derive(Copy, Clone, Debug, PartialEq, Eq, Structural)]
pub enum WritePoll {
    /// The stage goes on.
    Pending,
    /// The packet will not be sent.
    Failed(EndpointError),
    /// Another stage follows.
    Next(WriteStage),
}

/// One step of sending a packet.
pub struct WriteStep {
    /// What is to be done.
    pub actions: Vec<Action>,
    /// What has come of it.
    pub poll: WritePoll,
}

/// The writes that put words into the FIFO of an endpoint.
pub open spec fn fifo_writes(index: usize, words: Seq<u32>) -> Seq<Action> {
    words.map(|k: int, word: u32| Action::WriteFifo(index, word))
}

impl Endpoint<In> {
    /// Begins to send a packet of `len` bytes.
    pub fn write(&self, len: usize) -> (r: Result<WriteStage, EndpointError>)
        ensures
            r == if len > self.info.max_packet_size {
                Err::<WriteStage, EndpointError>(EndpointError::BufferOverflow)
            } else {
                Ok(WriteStage::Previous)
            },
    {
        if len > self.info.max_packet_size as usize {
            return Err(EndpointError::BufferOverflow);
        }
        Ok(WriteStage::Previous)
    }

    /// Waits for the previous transfer to complete, and checks whether the endpoint is disabled.
    pub fn write_previous(&self, len: usize, diepctl: EpStatus) -> (r: WritePoll)
        ensures
            r == if !diepctl.usbaep {
                WritePoll::Failed(EndpointError::Disabled)
            } else if diepctl.epena {
                WritePoll::Pending
            } else if !self.dma_enable && len > 0 {
                WritePoll::Next(WriteStage::Space)
            } else {
                WritePoll::Next(WriteStage::Transfer)
            },
    {
        if !diepctl.usbaep {
            return WritePoll::Failed(EndpointError::Disabled);
        }
        if diepctl.epena {
            return WritePoll::Pending;
        }
        if !self.dma_enable && len > 0 {
            WritePoll::Next(WriteStage::Space)
        } else {
            WritePoll::Next(WriteStage::Transfer)
        }
    }

    /// Waits for as many words to be free in the FIFO as the packet needs.
    ///
    /// Where there are fewer, the interrupt is enabled that comes when the FIFO is empty.
    pub fn write_space(&self, len: usize, ineptfsav: u16) -> (r: WriteStep)
        ensures
            word_count(len as int) > ineptfsav ==> {
                &&& r.actions@ == seq![
                    Action::EnterCritical,
                    Action::ModifyDiepempmsk(self.number() as usize, true),
                    Action::ExitCritical,
                ]
                &&& r.poll is Pending
            },
            word_count(len as int) <= ineptfsav ==> {
                &&& r.actions@ == Seq::<Action>::empty()
                &&& r.poll == WritePoll::Next(WriteStage::Transfer)
            },
    {
        let size_words: usize = packet_words(len);
        let fifo_space: usize = ineptfsav as usize;
        if size_words > fifo_space {
            let index: usize = self.info.addr.index();
            WriteStep {
                actions: vec![
                    Action::EnterCritical,
                    Action::ModifyDiepempmsk(index, true),
                    Action::ExitCritical,
                ],
                poll: WritePoll::Pending,
            }
        } else {
            WriteStep {
                actions: Vec::new(),
                poll: WritePoll::Next(WriteStage::Transfer),
            }
        }
    }

    /// The transfer size register for a packet.
    pub open spec fn transfer_size(len: int) -> Dieptsiz {
        Dieptsiz { mcnt: 1, pktcnt: 1, xfrsiz: len as usize as u32 }
    }

    /// The actions that enable the endpoint.
    pub open spec fn enable_actions(self) -> Seq<Action> {
        parity_probe(Direction::In, self.info) + seq![
            Action::ModifyDiepctl(
                self.number() as usize,
                Epctl { cnak: Some(true), epena: Some(true), ..Epctl::none() },
            ),
        ]
    }

    /// The actions that hand a packet to the DMA engine.
    pub open spec fn transfer_dma_actions(self, len: int, buf_addr: usize) -> Seq<Action> {
        let index = self.number() as usize;
        let clean = if len > 0 {
            seq![Action::CleanCache { addr: buf_addr, len: len as usize }]
        } else {
            Seq::empty()
        };
        let dma_addr = if len > 0 {
            buf_addr as u32
        } else {
            ZERO_LENGTH_DMA_ADDR
        };
        clean + seq![
            Action::EnterCritical,
            Action::WriteDieptsiz(index, Self::transfer_size(len)),
            Action::WriteDiepdma(index, dma_addr),
        ] + self.enable_actions() + seq![Action::ExitCritical]
    }

    /// The actions that put a packet into the FIFO.
    pub open spec fn transfer_fifo_actions(self, order: ByteOrder, data: Seq<u8>) -> Seq<Action> {
        let index = self.number() as usize;
        seq![
            Action::EnterCritical,
            Action::WriteDieptsiz(index, Self::transfer_size(data.len() as int)),
        ] + self.enable_actions() + fifo_writes(index, packed(order, data)) + seq![
            Action::ExitCritical,
        ]
    }

    /// Hands the packet over, either to the DMA engine, as the bytes at `buf_addr`, or to the FIFO.
    pub fn write_transfer(&self, order: ByteOrder, buf: &[u8], buf_addr: usize) -> (r: WriteStep)
        ensures
            self.dma_enable ==> {
                &&& r.actions@ == self.transfer_dma_actions(buf@.len() as int, buf_addr)
                &&& r.poll == WritePoll::Next(WriteStage::Completion)
            },
            !self.dma_enable ==> {
                &&& r.actions@ == self.transfer_fifo_actions(order, buf@)
                &&& r.poll == WritePoll::Next(WriteStage::Done)
            },
    {
        let index: usize = self.info.addr.index();
        let len: usize = buf.len();
        let mut actions: Vec<Action> = Vec::new();
        if self.dma_enable && len > 0 {
            // the engine reads behind the cache
            actions.push(Action::CleanCache { addr: buf_addr, len });
        }
        // ERRATA: the transmit FIFO is corrupted when a sequence of writes to it is interrupted
        // by accesses to certain registers, so the interrupt handler is kept out
        actions.push(Action::EnterCritical);
        actions.push(
            Action::WriteDieptsiz(index, Dieptsiz { mcnt: 1, pktcnt: 1, xfrsiz: len as u32 }),
        );
        if self.dma_enable {
            let dma_addr: u32 = if len > 0 {
                buf_addr as u32
            } else {
                ZERO_LENGTH_DMA_ADDR
            };
            actions.push(Action::WriteDiepdma(index, dma_addr));
        }
        if self.info.ep_type == EndpointType::Isochronous {
            actions.push(Action::Probe(Probe::FrameNumber(Direction::In, index)));
        }
        actions.push(
            Action::ModifyDiepctl(
                index,
                Epctl { cnak: Some(true), epena: Some(true), ..Epctl::none() },
            ),
        );
        if self.dma_enable {
            actions.push(Action::ExitCritical);
            proof {
                assert(actions@ == self.transfer_dma_actions(len as int, buf_addr));
            }
            return WriteStep { actions, poll: WritePoll::Next(WriteStage::Completion) };
        }
        let ghost head = actions@;
        let ghost words = packed(order, buf@);
        let count: usize = packet_words(len);
        let mut k: usize = 0;
        while k < count
            invariant
                k <= count == word_count(buf@.len() as int),
                words == packed(order, buf@),
                actions@ == head + fifo_writes(index, words.take(k as int)),
            decreases count - k,
        {
            actions.push(Action::WriteFifo(index, packet_word(order, buf, k)));
            k = k + 1;
            proof {
                assert(actions@ =~= head + fifo_writes(index, words.take(k as int)));
            }
        }
        proof {
            assert(words.take(count as int) =~= words);
        }
        actions.push(Action::ExitCritical);
        proof {
            assert(actions@ == self.transfer_fifo_actions(order, buf@));
        }
        WriteStep { actions, poll: WritePoll::Next(WriteStage::Done) }
    }

    /// Waits for the DMA engine to complete the transfer, or for the endpoint to be disabled.
    pub fn write_completion(&self, diepctl: EpStatus) -> (r: WritePoll)
        ensures
            r == if !diepctl.epena || !diepctl.usbaep {
                WritePoll::Next(WriteStage::Done)
            } else {
                WritePoll::Pending
            },
    {
        if !diepctl.epena || !diepctl.usbaep {
            WritePoll::Next(WriteStage::Done)
        } else {
            WritePoll::Pending
        }
    }
}

} // verus!
