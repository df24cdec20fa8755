//! Allocation of endpoints, their FIFO space and their packet memory.
use crate::bus::Bus;
use crate::config::{Config, OtgInstance};
use crate::control::ControlPipe;
use crate::endpoint::{Dir, Endpoint, In, Out};
use crate::state::{BufferSlot, EpState, State};
use crate::table::{
    ep0_size_supported, ep_fifo_size, lemma_total_bytes_empty, lemma_total_bytes_update,
    lemma_total_words_empty, lemma_total_words_monotonic, lemma_total_words_update, table_ok,
    total_bytes, total_words, words_needed, EndpointData,
};
use crate::types::{
    Direction, EndpointAddress, EndpointAllocError, EndpointInfo, EndpointType, MAX_ENDPOINTS,
};
use core::marker::PhantomData;
use vstd::prelude::*;

verus! {

/// The memory that received packets are kept in, by its place.
#[derive(Copy, Clone, Debug, PartialEq, Eq, Structural)]
pub struct PacketMemory {
    /// Address of the first byte.
    pub addr: usize,
    /// Length, in bytes.
    pub len: usize,
}

/// USB OTG driver, before it is started.
pub struct Driver<const MAX_EP_COUNT: usize> {
    /// The configuration.
    pub config: Config,
    /// The IN endpoints.
    pub ep_in: [Option<EndpointData>; MAX_EP_COUNT],
    /// The OUT endpoints.
    pub ep_out: [Option<EndpointData>; MAX_EP_COUNT],
    /// Where received packets are kept.
    pub ep_out_buffer: PacketMemory,
    /// How much of the packet memory is given out.
    pub ep_out_buffer_offset: usize,
    /// The hardware.
    pub instance: OtgInstance,
}

/// Whether an endpoint of this type can be put at `i`: the slot is free, and endpoint 0 is kept
/// for the control pipe.
pub open spec fn usable(eps: Seq<Option<EndpointData>>, ep_type: EndpointType, i: int) -> bool {
    eps[i] is None && (i == 0 ==> ep_type is Control)
}

/// Whether `i` is the slot for a new endpoint: the one that was asked for, where it is usable, or
/// else the first usable one.
pub open spec fn is_slot(
    eps: Seq<Option<EndpointData>>,
    count: int,
    ep_type: EndpointType,
    ep_addr: Option<EndpointAddress>,
    i: int,
) -> bool {
    &&& 0 <= i < count
    &&& usable(eps, ep_type, i)
    &&& match ep_addr {
        Some(addr) => i == addr.number(),
        None => forall|j: int| 0 <= j < i ==> !#[trigger] usable(eps, ep_type, j),
    }
}

/// Finds the slot for a new endpoint.
fn find_slot(
    eps: &[Option<EndpointData>],
    count: usize,
    ep_type: EndpointType,
    ep_addr: Option<EndpointAddress>,
) -> (r: Option<usize>)
    requires
        count <= eps@.len(),
    ensures
        match r {
            Some(i) => is_slot(eps@, count as int, ep_type, ep_addr, i as int),
            None => forall|i: int| !#[trigger] is_slot(eps@, count as int, ep_type, ep_addr, i),
        },
{
    if let Some(addr) = ep_addr {
        let requested = addr.index();
        if requested >= count {
            return None;
        }
        if requested == 0 && ep_type != EndpointType::Control {
            // endpoint 0 is reserved for control
            return None;
        }
        if eps[requested].is_some() {
            // already allocated
            return None;
        }
        return Some(requested);
    }
    let mut i: usize = 0;
    while i < count
        invariant
            ep_addr is None,
            i <= count <= eps@.len(),
            forall|j: int| 0 <= j < i ==> !#[trigger] usable(eps@, ep_type, j),
        decreases count - i,
    {
        if eps[i].is_none() && (i != 0 || ep_type == EndpointType::Control) {
            return Some(i);
        }
        i = i + 1;
    }
    None
}

impl<const MAX_EP_COUNT: usize> Driver<MAX_EP_COUNT> {
    /// FIFO words that are given out.
    pub open spec fn allocated_words(self) -> int {
        self.instance.extra_rx_fifo_words + total_words(self.ep_out@) + total_words(self.ep_in@)
    }

    /// The endpoints of one direction.
    pub open spec fn table(self, dir: Direction) -> Seq<Option<EndpointData>> {
        match dir {
            Direction::Out => self.ep_out@,
            Direction::In => self.ep_in@,
        }
    }

    /// Whether the driver and the shared state are consistent.
    ///
    /// What is allocated lies within the number of endpoints, the FIFO and the packet memory. The
    /// buffer of each OUT endpoint is as large as its largest packet and no other endpoint's, and
    /// nothing else of the packet memory is given out. There are no more endpoints than addresses.
    pub open spec fn wf(self, state: State<MAX_EP_COUNT>) -> bool {
        &&& self.instance.endpoint_count <= MAX_EP_COUNT
        &&& self.instance.endpoint_count <= MAX_ENDPOINTS
        &&& self.ep_out_buffer.addr + self.ep_out_buffer.len <= usize::MAX
        &&& self.ep_out_buffer_offset <= self.ep_out_buffer.len
        &&& self.ep_out_buffer_offset == total_bytes(self.ep_out@)
        &&& table_ok(self.ep_in@, Direction::In, self.instance.endpoint_count as int)
        &&& table_ok(self.ep_out@, Direction::Out, self.instance.endpoint_count as int)
        &&& total_words(self.ep_out@) >= 0
        &&& total_words(self.ep_in@) >= 0
        &&& {
            ||| total_words(self.ep_out@) + total_words(self.ep_in@) == 0
            ||| self.allocated_words() <= self.instance.fifo_depth_words
        }
        &&& forall|i: int|
            #![trigger state.ep_states@[i]]
            0 <= i < MAX_EP_COUNT ==> (self.ep_out@[i] matches Some(ep) ==> {
                &&& state.ep_states@[i].out_buffer.len == ep.max_packet_size
                &&& state.ep_states@[i].out_buffer.addr == self.ep_out_buffer.addr
                    + state.ep_states@[i].out_buffer.offset
            })
        &&& state.slots_apart(
            |i: int| self.ep_out@[i] is Some,
            self.ep_out_buffer_offset as int,
        )
    }

    /// Whether what the endpoints hold fits the packet memory, and an endpoint that is not allocated
    /// holds nothing.
    pub open spec fn fits(self, state: State<MAX_EP_COUNT>) -> bool {
        &&& state.wf(self.ep_out_buffer.len as int)
        &&& forall|i: int|
            #![trigger state.ep_states@[i]]
            0 <= i < MAX_EP_COUNT && self.ep_out@[i] is None ==> state.ep_states@[i].idle()
    }

    /// Whether there is FIFO space, and for an OUT endpoint packet memory, for a new endpoint.
    pub open spec fn has_room(self, dir: Direction, max_packet_size: u16) -> bool {
        &&& words_needed(dir, max_packet_size) + self.allocated_words()
            <= self.instance.fifo_depth_words
        &&& dir is Out ==> self.ep_out_buffer_offset + max_packet_size <= self.ep_out_buffer.len
    }

    /// Whether an endpoint can be allocated.
    pub open spec fn can_alloc(
        self,
        dir: Direction,
        ep_type: EndpointType,
        ep_addr: Option<EndpointAddress>,
        max_packet_size: u16,
    ) -> bool {
        &&& self.has_room(dir, max_packet_size)
        &&& exists|i: int|
            is_slot(
                self.table(dir),
                self.instance.endpoint_count as int,
                ep_type,
                ep_addr,
                i,
            )
    }

    /// Whether this is the driver `before` with an endpoint added at `i`.
    pub open spec fn adds(
        self,
        before: Driver<MAX_EP_COUNT>,
        dir: Direction,
        i: int,
        ep_type: EndpointType,
        max_packet_size: u16,
    ) -> bool {
        let ep = EndpointData {
            ep_type,
            max_packet_size,
            fifo_size_words: words_needed(dir, max_packet_size) as u16,
        };
        &&& self.config == before.config
        &&& self.instance == before.instance
        &&& self.ep_out_buffer == before.ep_out_buffer
        &&& match dir {
            Direction::Out => {
                &&& self.ep_out@ == before.ep_out@.update(i, Some(ep))
                &&& self.ep_in == before.ep_in
                &&& self.ep_out_buffer_offset == before.ep_out_buffer_offset + max_packet_size
            },
            Direction::In => {
                &&& self.ep_in@ == before.ep_in@.update(i, Some(ep))
                &&& self.ep_out == before.ep_out
                &&& self.ep_out_buffer_offset == before.ep_out_buffer_offset
            },
        }
    }

    /// The state of endpoint `i` once this driver has given the next part of its packet memory to
    /// it.
    pub open spec fn next_slot(self, ep: EpState, max_packet_size: u16) -> EpState {
        EpState {
            out_buffer: BufferSlot {
                offset: self.ep_out_buffer_offset,
                len: max_packet_size as usize,
                addr: (self.ep_out_buffer.addr + self.ep_out_buffer_offset) as usize,
            },
            ..ep
        }
    }

    /// Whether allocating an endpoint leads from this driver and state to those `after`: slot `i`
    /// is filled, and `ep` is the endpoint.
    pub open spec fn allocates<D: Dir>(
        self,
        state: State<MAX_EP_COUNT>,
        after: Driver<MAX_EP_COUNT>,
        state_after: State<MAX_EP_COUNT>,
        ep_type: EndpointType,
        ep_addr: Option<EndpointAddress>,
        max_packet_size: u16,
        interval_ms: u8,
        i: int,
        ep: Endpoint<D>,
    ) -> bool {
        let dir = D::direction();
        &&& is_slot(
            self.table(dir),
            self.instance.endpoint_count as int,
            ep_type,
            ep_addr,
            i,
        )
        &&& after.adds(self, dir, i, ep_type, max_packet_size)
        &&& match dir {
            Direction::Out => {
                &&& state_after.same_but_endpoint(state, i)
                &&& state_after.ep_states@[i] == self.next_slot(
                    state.ep_states@[i],
                    max_packet_size,
                )
            },
            Direction::In => state_after == state,
        }
        &&& ep.info == EndpointInfo {
            addr: EndpointAddress::of(i, dir),
            ep_type,
            max_packet_size,
            interval_ms,
        }
        &&& ep.dma_enable == self.instance.uses_dma(self.config)
    }

    /// Prepares a driver.
    ///
    /// # Arguments
    ///
    /// * `ep_out_buffer` - The memory in which received packets are kept until they are read. Must
    ///   be large enough to fit the maximum packet sizes of all OUT endpoints. Endpoint allocation
    ///   will fail if it is too small.
    /// * `instance` - The hardware.
    /// * `config` - The configuration.
    pub fn new(ep_out_buffer: PacketMemory, instance: OtgInstance, config: Config) -> (r: Self)
        requires
            instance.endpoint_count <= MAX_EP_COUNT,
            instance.endpoint_count <= MAX_ENDPOINTS,
            ep_out_buffer.addr + ep_out_buffer.len <= usize::MAX,
        ensures
            r.config == config,
            r.instance == instance,
            r.ep_out_buffer == ep_out_buffer,
            r.ep_out_buffer_offset == 0,
            forall|i: int| 0 <= i < MAX_EP_COUNT ==> (#[trigger] r.ep_in@[i]) is None,
            forall|i: int| 0 <= i < MAX_EP_COUNT ==> (#[trigger] r.ep_out@[i]) is None,
            forall|state: State<MAX_EP_COUNT>| #[trigger] r.wf(state),
    {
        let r = Driver {
            config,
            ep_in: [None; MAX_EP_COUNT],
            ep_out: [None; MAX_EP_COUNT],
            ep_out_buffer,
            ep_out_buffer_offset: 0,
            instance,
        };
        proof {
            lemma_total_words_empty(r.ep_in@);
            lemma_total_words_empty(r.ep_out@);
            lemma_total_bytes_empty(r.ep_out@);
        }
        r
    }

    /// Returns the total amount of words allocated in the FIFO.
    pub fn allocated_fifo_words(&self) -> (r: u16)
        requires
            self.allocated_words() <= u16::MAX,
        ensures
            r == self.allocated_words(),
    {
        proof {
            lemma_total_words_monotonic(self.ep_out@, 0);
            lemma_total_words_monotonic(self.ep_in@, 0);
        }
        self.instance.extra_rx_fifo_words + ep_fifo_size(&self.ep_out) + ep_fifo_size(&self.ep_in)
    }

    /// Creates an endpoint with the given parameters.
    ///
    /// Fails, and changes nothing, where the endpoint asked for is not there, is taken or is kept
    /// for the control pipe, where no endpoint is free, or where the FIFO or the packet memory is
    /// used up.
    pub fn alloc_endpoint<D: Dir>(
        &mut self,
        state: &mut State<MAX_EP_COUNT>,
        ep_type: EndpointType,
        ep_addr: Option<EndpointAddress>,
        max_packet_size: u16,
        interval_ms: u8,
    ) -> (r: Result<Endpoint<D>, EndpointAllocError>)
        requires
            old(self).wf(*old(state)),
        ensures
            final(self).wf(*final(state)),
            r is Ok <==> old(self).can_alloc(D::direction(), ep_type, ep_addr, max_packet_size),
            r is Err ==> *final(self) == *old(self) && *final(state) == *old(state),
            r matches Ok(ep) ==> exists|i: int| #[trigger]
                old(self).allocates::<D>(
                    *old(state),
                    *final(self),
                    *final(state),
                    ep_type,
                    ep_addr,
                    max_packet_size,
                    interval_ms,
                    i,
                    ep,
                ),
            old(self).fits(*old(state)) ==> final(self).fits(*final(state)),
    {
        proof {
            lemma_total_words_monotonic(self.ep_out@, 0);
            lemma_total_words_monotonic(self.ep_in@, 0);
        }
        let dir = D::dir();
        if dir == Direction::Out {
            if max_packet_size as usize > self.ep_out_buffer.len - self.ep_out_buffer_offset {
                return Err(EndpointAllocError);
            }
        }
        let packet_words: u16 = ((max_packet_size as u32 + 3) / 4) as u16;
        let fifo_size_words: u16 = match dir {
            Direction::Out => packet_words,
            // INEPTXFD requires a minimum size of 16 words
            Direction::In => if packet_words < 16 {
                16
            } else {
                packet_words
            },
        };
        assert(fifo_size_words == words_needed(dir, max_packet_size));
        if fifo_size_words as u32 + self.allocated_fifo_words() as u32
            > self.instance.fifo_depth_words as u32 {
            return Err(EndpointAllocError);
        }
        let count: usize = self.instance.endpoint_count;
        let slot = match dir {
            Direction::Out => find_slot(&self.ep_out, count, ep_type, ep_addr),
            Direction::In => find_slot(&self.ep_in, count, ep_type, ep_addr),
        };
        let index: usize = match slot {
            Some(index) => index,
            None => {
                return Err(EndpointAllocError);
            },
        };
        let data = EndpointData { ep_type, max_packet_size, fifo_size_words };
        match dir {
            Direction::Out => {
                proof {
                    lemma_total_words_update(self.ep_out@, index as int, data);
                    lemma_total_bytes_update(self.ep_out@, index as int, data);
                }
                self.ep_out[index] = Some(data);
                let mut ep = state.ep_states[index];
                ep.out_buffer = BufferSlot {
                    offset: self.ep_out_buffer_offset,
                    len: max_packet_size as usize,
                    addr: self.ep_out_buffer.addr + self.ep_out_buffer_offset,
                };
                state.set_endpoint(index, ep);
                self.ep_out_buffer_offset = self.ep_out_buffer_offset + max_packet_size as usize;
            },
            Direction::In => {
                proof {
                    lemma_total_words_update(self.ep_in@, index as int, data);
                }
                self.ep_in[index] = Some(data);
            },
        }
        let ep: Endpoint<D> = Endpoint {
            phantom: PhantomData,
            info: EndpointInfo {
                addr: EndpointAddress::from_parts(index, dir),
                ep_type,
                max_packet_size,
                interval_ms,
            },
            dma_enable: self.instance.dma_in_use(&self.config),
        };
        assert(old(self).allocates::<D>(
            *old(state),
            *self,
            *state,
            ep_type,
            ep_addr,
            max_packet_size,
            interval_ms,
            index as int,
            ep,
        ));
        proof {
            let len = self.ep_out_buffer.len as int;
            assert forall|j: int|
                old(self).fits(*old(state)) && 0 <= j < MAX_EP_COUNT implies (
            #[trigger] state.ep_states@[j]).wf(len) by {
                assert(old(state).ep_states@[j].wf(len));
            }
            assert forall|j: int|
                old(self).fits(*old(state)) && 0 <= j < MAX_EP_COUNT
                    && self.ep_out@[j] is None implies (#[trigger] state.ep_states@[j]).idle() by {
                assert(old(state).ep_states@[j].idle());
            }
        }
        Ok(ep)
    }

    /// Allocates an IN endpoint.
    pub fn alloc_endpoint_in(
        &mut self,
        state: &mut State<MAX_EP_COUNT>,
        ep_type: EndpointType,
        ep_addr: Option<EndpointAddress>,
        max_packet_size: u16,
        interval_ms: u8,
    ) -> (r: Result<Endpoint<In>, EndpointAllocError>)
        requires
            old(self).wf(*old(state)),
        ensures
            final(self).wf(*final(state)),
            r is Ok <==> old(self).can_alloc(Direction::In, ep_type, ep_addr, max_packet_size),
            r is Err ==> *final(self) == *old(self) && *final(state) == *old(state),
            r matches Ok(ep) ==> exists|i: int| #[trigger]
                old(self).allocates::<In>(
                    *old(state),
                    *final(self),
                    *final(state),
                    ep_type,
                    ep_addr,
                    max_packet_size,
                    interval_ms,
                    i,
                    ep,
                ),
            old(self).fits(*old(state)) ==> final(self).fits(*final(state)),
    {
        self.alloc_endpoint::<In>(state, ep_type, ep_addr, max_packet_size, interval_ms)
    }

    /// Allocates an OUT endpoint.
    pub fn alloc_endpoint_out(
        &mut self,
        state: &mut State<MAX_EP_COUNT>,
        ep_type: EndpointType,
        ep_addr: Option<EndpointAddress>,
        max_packet_size: u16,
        interval_ms: u8,
    ) -> (r: Result<Endpoint<Out>, EndpointAllocError>)
        requires
            old(self).wf(*old(state)),
        ensures
            final(self).wf(*final(state)),
            r is Ok <==> old(self).can_alloc(Direction::Out, ep_type, ep_addr, max_packet_size),
            r is Err ==> *final(self) == *old(self) && *final(state) == *old(state),
            r matches Ok(ep) ==> exists|i: int| #[trigger]
                old(self).allocates::<Out>(
                    *old(state),
                    *final(self),
                    *final(state),
                    ep_type,
                    ep_addr,
                    max_packet_size,
                    interval_ms,
                    i,
                    ep,
                ),
            old(self).fits(*old(state)) ==> final(self).fits(*final(state)),
    {
        self.alloc_endpoint::<Out>(state, ep_type, ep_addr, max_packet_size, interval_ms)
    }

    /// Whether the driver can be started with this packet size for the control pipe: both
    /// endpoints 0 are free, and there is room for them.
    pub open spec fn startable(self, control_max_packet_size: u16) -> bool {
        &&& self.instance.endpoint_count > 0
        &&& self.ep_out@[0] is None
        &&& self.ep_in@[0] is None
        &&& self.ep_out_buffer_offset + control_max_packet_size <= self.ep_out_buffer.len
        &&& words_needed(Direction::Out, control_max_packet_size) + words_needed(
            Direction::In,
            control_max_packet_size,
        ) + self.allocated_words() <= self.instance.fifo_depth_words
    }

    /// Tests whether the driver can be started with this packet size for the control pipe.
    pub fn can_start(&self, control_max_packet_size: u16) -> (r: bool)
        requires
            self.instance.endpoint_count <= MAX_EP_COUNT,
            self.allocated_words() <= u16::MAX,
            self.ep_out_buffer_offset <= self.ep_out_buffer.len,
        ensures
            r == self.startable(control_max_packet_size),
    {
        if self.instance.endpoint_count == 0 || self.ep_out[0].is_some() || self.ep_in[0].is_some()
            || control_max_packet_size as usize > self.ep_out_buffer.len
            - self.ep_out_buffer_offset {
            return false;
        }
        let out_words: u32 = (control_max_packet_size as u32 + 3) / 4;
        let in_words: u32 = if out_words < 16 {
            16
        } else {
            out_words
        };
        out_words + in_words + self.allocated_fifo_words() as u32
            <= self.instance.fifo_depth_words as u32
    }

    /// Starts operation, with the control pipe on both endpoints 0.
    pub fn start(self, state: &mut State<MAX_EP_COUNT>, control_max_packet_size: u16) -> (r: (
        Bus<MAX_EP_COUNT>,
        ControlPipe,
    ))
        requires
            self.wf(*old(state)),
            self.startable(control_max_packet_size),
        ensures
            r.0.wf(),
            r.0.config == self.config,
            r.0.instance == self.instance,
            !r.0.inited,
            r.0.ep_out@ == self.ep_out@.update(
                0,
                Some(
                    EndpointData {
                        ep_type: EndpointType::Control,
                        max_packet_size: control_max_packet_size,
                        fifo_size_words: words_needed(
                            Direction::Out,
                            control_max_packet_size,
                        ) as u16,
                    },
                ),
            ),
            r.0.ep_in@ == self.ep_in@.update(
                0,
                Some(
                    EndpointData {
                        ep_type: EndpointType::Control,
                        max_packet_size: control_max_packet_size,
                        fifo_size_words: words_needed(
                            Direction::In,
                            control_max_packet_size,
                        ) as u16,
                    },
                ),
            ),
            r.1.max_packet_size == control_max_packet_size,
            r.1.ep_out.info == (EndpointInfo {
                addr: EndpointAddress::of(0, Direction::Out),
                ep_type: EndpointType::Control,
                max_packet_size: control_max_packet_size,
                interval_ms: 0,
            }),
            r.1.ep_in.info == (EndpointInfo {
                addr: EndpointAddress::of(0, Direction::In),
                ep_type: EndpointType::Control,
                max_packet_size: control_max_packet_size,
                interval_ms: 0,
            }),
            r.1.ep_out.dma_enable == self.instance.uses_dma(self.config),
            r.1.ep_in.dma_enable == self.instance.uses_dma(self.config),
            final(state).same_but_endpoint(*old(state), 0),
            final(state).ep_states@[0] == self.next_slot(
                old(state).ep_states@[0],
                control_max_packet_size,
            ),
            self.fits(*old(state)) ==> final(state).wf(self.ep_out_buffer.len as int),
            final(state).slots_apart(
                |i: int| r.0.ep_out@[i] is Some,
                self.ep_out_buffer.len as int,
            ),
            total_bytes(r.0.ep_out@) == self.ep_out_buffer_offset + control_max_packet_size,
            ep0_size_supported(control_max_packet_size) && self.instance.endpoint_count <= 16
                ==> r.0.configurable(),
    {
        let mut driver = self;
        let ghost count = self.instance.endpoint_count as int;
        proof {
            lemma_total_words_monotonic(self.ep_out@, 0);
            lemma_total_words_monotonic(self.ep_in@, 0);
            assert(is_slot(
                self.table(Direction::Out),
                count,
                EndpointType::Control,
                None,
                0,
            ));
            assert(is_slot(self.ep_in@, count, EndpointType::Control, None, 0));
            assert(self.has_room(Direction::Out, control_max_packet_size));
            assert(self.can_alloc(
                Direction::Out,
                EndpointType::Control,
                None,
                control_max_packet_size,
            ));
        }
        let out = driver.alloc_endpoint::<Out>(
            state,
            EndpointType::Control,
            None,
            control_max_packet_size,
            0,
        );
        let ghost middle = driver;
        proof {
            lemma_only_slot(self.ep_out@, count, EndpointType::Control, None, 0);
            lemma_total_words_update(self.ep_out@, 0, middle.ep_out@[0]->0);
            assert(is_slot(
                middle.table(Direction::In),
                count,
                EndpointType::Control,
                None,
                0,
            ));
            assert(middle.can_alloc(
                Direction::In,
                EndpointType::Control,
                None,
                control_max_packet_size,
            ));
        }
        let ep_out = out.unwrap();
        let inp = driver.alloc_endpoint::<In>(
            state,
            EndpointType::Control,
            None,
            control_max_packet_size,
            0,
        );
        proof {
            lemma_only_slot(self.ep_in@, count, EndpointType::Control, None, 0);
            lemma_total_words_update(middle.ep_in@, 0, driver.ep_in@[0]->0);
            lemma_total_words_monotonic(driver.ep_out@, 0);
            lemma_total_words_monotonic(driver.ep_in@, 0);
        }
        let ep_in = inp.unwrap();
        let bus = Bus {
            config: driver.config,
            ep_in: driver.ep_in,
            ep_out: driver.ep_out,
            instance: driver.instance,
            inited: false,
        };
        let pipe = ControlPipe { max_packet_size: control_max_packet_size, ep_in, ep_out };
        (bus, pipe)
    }
}

/// There is at most one slot for a new endpoint.
pub proof fn lemma_only_slot(
    eps: Seq<Option<EndpointData>>,
    count: int,
    ep_type: EndpointType,
    ep_addr: Option<EndpointAddress>,
    i: int,
)
    requires
        is_slot(eps, count, ep_type, ep_addr, i),
    ensures
        forall|j: int| #[trigger] is_slot(eps, count, ep_type, ep_addr, j) ==> j == i,
{
    assert forall|j: int| #[trigger] is_slot(eps, count, ep_type, ep_addr, j) implies j == i by {
        if ep_addr is None && j < i {
            assert(!usable(eps, ep_type, j));
        }
        if ep_addr is None && i < j {
            assert(!usable(eps, ep_type, i));
        }
    }
}

} // verus!
