//! The control pipe.
use crate::action::Action;
use crate::bus::{arm_setup, arm_setup_actions};
use crate::endpoint::{Endpoint, In, Out};
use crate::fifo::{bytes_of, word_to_bytes};
use crate::registers::{Dcfg, Doeptsiz, Epctl};
use crate::state::{ControlPipeSetupState, State};
use crate::types::EndpointError;
use vstd::prelude::*;

verus! {

/// USB control pipe.
pub struct ControlPipe {
    /// Maximum packet size, in bytes.
    pub max_packet_size: u16,
    /// IN endpoint 0.
    pub ep_in: Endpoint<In>,
    /// OUT endpoint 0.
    pub ep_out: Endpoint<Out>,
}

/// The bytes of the SETUP packet that the state holds.
pub open spec fn setup_packet<const N: usize>(state: State<N>) -> Seq<u8> {
    bytes_of(state.byte_order, state.cp_state.setup_data@[0]) + bytes_of(
        state.byte_order,
        state.cp_state.setup_data@[1],
    )
}

/// One step of waiting for a SETUP packet.
pub struct SetupStep {
    /// What is to be done.
    pub actions: Vec<Action>,
    /// The packet, once there is one.
    pub packet: Option<[u8; 8]>,
}

/// What follows a packet of the data stage.
#[derive(Copy, Clone, Debug, PartialEq, Eq, Structural)]
pub enum DataInNext {
    /// The packet could not be sent.
    Failed(EndpointError),
    /// The host's status response, an empty packet, is to be read.
    AwaitStatus,
    /// More packets follow.
    Done,
}

impl ControlPipe {
    /// Gets the maximum packet size for the control pipe.
    pub fn max_packet_size(&self) -> (r: usize)
        ensures
            r == self.max_packet_size,
    {
        self.max_packet_size as usize
    }

    /// Makes sure that the DMA engine can receive a SETUP packet, given EPENA of DOEPCTL.
    pub fn setup_prepare<const N: usize>(&self, state: &State<N>, epena: bool) -> (r: Vec<Action>)
        ensures
            r@ == if self.ep_out.dma_enable && !epena {
                arm_setup_actions(self.ep_out.number() as usize, state.setup_dma_buf as u32)
            } else {
                Seq::empty()
            },
    {
        if self.ep_out.dma_enable && !epena {
            arm_setup(self.ep_out.info.addr.index(), state.setup_dma_buf_addr())
        } else {
            Vec::new()
        }
    }

    /// The actions that let the next SETUP packet into the FIFO.
    pub open spec fn next_setup_actions(self) -> Seq<Action> {
        let index = self.ep_out.number() as usize;
        if self.ep_out.dma_enable {
            Seq::empty()
        } else {
            seq![
                Action::ModifyDoeptsiz(
                    index,
                    Doeptsiz { rxdpid_stupcnt: Some(3), ..Doeptsiz::none() },
                ),
                Action::ModifyDoepctl(index, Epctl { cnak: Some(true), ..Epctl::none() }),
            ]
        }
    }

    /// Takes the SETUP packet, if one has been received.
    pub fn setup<const N: usize>(&self, state: &mut State<N>) -> (r: SetupStep)
        ensures
            final(state).same_but_setup(*old(state)),
            final(state).cp_state == (ControlPipeSetupState {
                setup_ready: false,
                ..old(state).cp_state
            }),
            !old(state).cp_state.setup_ready ==> {
                &&& r.packet is None
                &&& r.actions@ == Seq::<Action>::empty()
            },
            old(state).cp_state.setup_ready ==> {
                &&& r.packet is Some
                &&& r.packet->0@ == setup_packet(*old(state))
                &&& r.actions@ == self.next_setup_actions()
            },
    {
        if !state.cp_state.setup_ready {
            return SetupStep { actions: Vec::new(), packet: None };
        }
        let lo = word_to_bytes(state.byte_order, state.cp_state.setup_data[0]);
        let hi = word_to_bytes(state.byte_order, state.cp_state.setup_data[1]);
        let data = [lo[0], lo[1], lo[2], lo[3], hi[0], hi[1], hi[2], hi[3]];
        state.cp_state.setup_ready = false;
        let mut actions: Vec<Action> = Vec::new();
        if !self.ep_out.dma_enable {
            let index: usize = self.ep_out.info.addr.index();
            actions.push(
                Action::ModifyDoeptsiz(
                    index,
                    Doeptsiz { rxdpid_stupcnt: Some(3), ..Doeptsiz::none() },
                ),
            );
            // clear NAK to indicate that the endpoint is ready to receive more data
            actions.push(
                Action::ModifyDoepctl(index, Epctl { cnak: Some(true), ..Epctl::none() }),
            );
        }
        proof {
            assert(data@ =~= setup_packet(*old(state)));
        }
        SetupStep { actions, packet: Some(data) }
    }

    /// Decides what follows a packet of the data stage, from what has come of sending it. After
    /// the last packet the host's status response is awaited.
    pub fn data_in(&self, sent: Result<(), EndpointError>, last: bool) -> (r: DataInNext)
        ensures
            r == match sent {
                Err(e) => DataInNext::Failed(e),
                Ok(_) => if last {
                    DataInNext::AwaitStatus
                } else {
                    DataInNext::Done
                },
            },
    {
        match sent {
            Err(e) => DataInNext::Failed(e),
            Ok(_) => if last {
                DataInNext::AwaitStatus
            } else {
                DataInNext::Done
            },
        }
    }

    /// Ends a control read, from what has come of reading the host's status response.
    pub fn data_in_status(&self, status: Result<usize, EndpointError>) -> (r: Result<
        (),
        EndpointError,
    >)
        ensures
            r == match status {
                Err(e) => Err::<(), EndpointError>(e),
                Ok(_) => Ok(()),
            },
    {
        match status {
            Err(e) => Err(e),
            Ok(_) => Ok(()),
        }
    }

    /// Rejects a control request, by stalling both endpoints of the pipe.
    pub fn reject(&self) -> (r: Vec<Action>)
        ensures
            r@ == seq![
                Action::ModifyDiepctl(
                    self.ep_in.number() as usize,
                    Epctl { stall: Some(true), ..Epctl::none() },
                ),
                Action::ModifyDoepctl(
                    self.ep_out.number() as usize,
                    Epctl { stall: Some(true), ..Epctl::none() },
                ),
            ],
    {
        vec![
            Action::ModifyDiepctl(
                self.ep_in.info.addr.index(),
                Epctl { stall: Some(true), ..Epctl::none() },
            ),
            Action::ModifyDoepctl(
                self.ep_out.info.addr.index(),
                Epctl { stall: Some(true), ..Epctl::none() },
            ),
        ]
    }

    /// Changes the bus address, which this core requires to be done before the request is
    /// accepted.
    pub fn accept_set_address(&self, addr: u8) -> (r: Vec<Action>)
        ensures
            r@ == seq![
                Action::EnterCritical,
                Action::ModifyDcfg(Dcfg { dad: Some(addr), ..Dcfg::none() }),
                Action::ExitCritical,
            ],
    {
        vec![
            Action::EnterCritical,
            Action::ModifyDcfg(Dcfg { dad: Some(addr), ..Dcfg::none() }),
            Action::ExitCritical,
        ]
    }
}

} // verus!
