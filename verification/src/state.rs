//! What the interrupt handler and the endpoints share.
use crate::fifo::{machine_order, ByteOrder};
use vstd::prelude::*;

verus! {

/// Length that marks an OUT buffer as empty.
pub const EP_OUT_BUFFER_EMPTY: u16 = 0xFFFF;

/// The part of the packet memory that one OUT endpoint receives into.
#[derive(Copy, Clone, Debug, PartialEq, Eq, Structural)]
pub struct BufferSlot {
    /// Offset in the packet memory.
    pub offset: usize,
    /// Length, in bytes.
    pub len: usize,
    /// Address of the first byte.
    pub addr: usize,
}

/// State of one endpoint number.
#[derive(Copy, Clone, Debug, PartialEq, Eq, Structural)]
pub struct EpState {
    /// Where packets are received.
    ///
    /// The receive FIFO is shared, so each endpoint needs a buffer of its own for all data to be
    /// taken out without waiting for one endpoint.
    pub out_buffer: BufferSlot,
    /// Length of the packet in the buffer, or [`EP_OUT_BUFFER_EMPTY`].
    pub out_size: u16,
    /// Size of the transfer that was handed to the DMA engine.
    pub out_xfer_size: u16,
}

/// State of the SETUP stage of the control pipe.
#[derive(Copy, Clone, Debug, PartialEq, Eq)]
pub struct ControlPipeSetupState {
    /// The last SETUP packet, valid where `setup_ready` is set.
    pub setup_data: [u32; 2],
    /// Whether a SETUP packet waits to be taken.
    pub setup_ready: bool,
}

/// State of the driver.
#[derive(Copy, Clone, Debug, PartialEq, Eq)]
pub struct State<const EP_COUNT: usize> {
    /// The control pipe.
    pub cp_state: ControlPipeSetupState,
    /// The endpoints.
    pub ep_states: [EpState; EP_COUNT],
    /// Set when the core is initialized with DMA.
    pub dma_enabled: bool,
    /// Address of the buffer that the DMA engine puts SETUP packets into.
    pub setup_dma_buf: usize,
    /// Byte order of the machine.
    pub byte_order: ByteOrder,
}

impl EpState {
    /// Nothing allocated, nothing received.
    pub open spec fn spec_new() -> EpState {
        EpState {
            out_buffer: BufferSlot { offset: 0, len: 0, addr: 0 },
            out_size: EP_OUT_BUFFER_EMPTY,
            out_xfer_size: 0,
        }
    }

    /// Whether a received packet waits to be read.
    pub open spec fn full(self) -> bool {
        self.out_size != EP_OUT_BUFFER_EMPTY
    }

    /// Whether nothing has been received or is about to be.
    pub open spec fn idle(self) -> bool {
        !self.full() && self.out_xfer_size == 0
    }

    /// Whether the endpoint's buffer lies within a packet memory of this length, and what is
    /// received or about to be received lies within the buffer.
    pub open spec fn wf(self, memory_len: int) -> bool {
        &&& self.out_buffer.offset + self.out_buffer.len <= memory_len
        &&& self.full() ==> self.out_size <= self.out_buffer.len
        &&& self.out_xfer_size <= self.out_buffer.len
    }
}

impl<const EP_COUNT: usize> State<EP_COUNT> {
    /// Whether every endpoint is well-formed for a packet memory of this length.
    pub open spec fn wf(self, memory_len: int) -> bool {
        forall|i: int| 0 <= i < EP_COUNT ==> (#[trigger] self.ep_states@[i]).wf(memory_len)
    }

    /// Whether no two of the endpoints in `used` share a byte of the packet memory, which has
    /// `memory_len` bytes and holds all of their buffers.
    pub open spec fn slots_apart(self, used: spec_fn(int) -> bool, memory_len: int) -> bool {
        &&& forall|i: int|
            #![trigger self.ep_states@[i]]
            0 <= i < EP_COUNT && used(i) ==> self.ep_states@[i].out_buffer.offset
                + self.ep_states@[i].out_buffer.len <= memory_len
        &&& forall|i: int, j: int|
            #![trigger self.ep_states@[i], self.ep_states@[j]]
            0 <= i < EP_COUNT && 0 <= j < EP_COUNT && i != j && used(i) && used(j) ==> {
                ||| self.ep_states@[i].out_buffer.offset + self.ep_states@[i].out_buffer.len
                    <= self.ep_states@[j].out_buffer.offset
                ||| self.ep_states@[j].out_buffer.offset + self.ep_states@[j].out_buffer.len
                    <= self.ep_states@[i].out_buffer.offset
            }
    }

    /// Whether the states agree on everything but endpoint `ep`.
    pub open spec fn same_but_endpoint(self, other: State<EP_COUNT>, ep: int) -> bool {
        &&& self.ep_states@ == other.ep_states@.update(ep, self.ep_states@[ep])
        &&& self.cp_state == other.cp_state
        &&& self.dma_enabled == other.dma_enabled
        &&& self.setup_dma_buf == other.setup_dma_buf
        &&& self.byte_order == other.byte_order
    }

    /// Whether the states agree on everything but the SETUP stage.
    pub open spec fn same_but_setup(self, other: State<EP_COUNT>) -> bool {
        &&& self.ep_states == other.ep_states
        &&& self.dma_enabled == other.dma_enabled
        &&& self.setup_dma_buf == other.setup_dma_buf
        &&& self.byte_order == other.byte_order
    }

    /// Creates a new state. The byte order is that of the machine.
    pub fn new() -> (r: State<EP_COUNT>)
        ensures
            r.cp_state.setup_data@ == seq![0u32, 0u32],
            !r.cp_state.setup_ready,
            forall|i: int| 0 <= i < EP_COUNT ==> #[trigger] r.ep_states@[i] == EpState::spec_new(),
            !r.dma_enabled,
            r.setup_dma_buf == 0,
            r.byte_order == machine_order(),
            r.wf(0),
    {
        let ep = EpState {
            out_buffer: BufferSlot { offset: 0, len: 0, addr: 0 },
            out_size: EP_OUT_BUFFER_EMPTY,
            out_xfer_size: 0,
        };
        State {
            cp_state: ControlPipeSetupState { setup_data: [0, 0], setup_ready: false },
            ep_states: [ep; EP_COUNT],
            dma_enabled: false,
            setup_dma_buf: 0,
            byte_order: ByteOrder::native(),
        }
    }

    /// Gets the address of the SETUP DMA buffer, as the core's registers take it.
    pub fn setup_dma_buf_addr(&self) -> (r: u32)
        ensures
            r == self.setup_dma_buf as u32,
    {
        self.setup_dma_buf as u32
    }

    /// Replaces the state of one endpoint.
    pub(crate) fn set_endpoint(&mut self, ep: usize, value: EpState)
        requires
            ep < EP_COUNT,
        ensures
            final(self).same_but_endpoint(*old(self), ep as int),
            final(self).ep_states@[ep as int] == value,
    {
        self.ep_states[ep] = value;
    }
}

} // verus!
