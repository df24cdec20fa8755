//! The bus: initialization, configuration of the core, and bus events.
use crate::action::{each, Action, Probe};
use crate::config::{Config, OtgInstance, PhyType};
use crate::registers::{
    Daintmsk, Dcfg, Dctl, Dieptxf, Doepmsk, Doeptsiz, EpStatus, Epctl, Gahbcfg, GccfgV1, GccfgV2,
    GccfgV3, Gintmsk, Gintsts, Gotgctl, Gotgint, Grstctl, Gusbcfg, Pfivl,
};
use crate::state::State;
use crate::table::{
    ep0_mpsiz, ep0_mpsiz_of, ep0_size_supported, ep_fifo_size, ep_irq_mask, eptyp_of, irq_mask,
    lemma_total_words_monotonic, lemma_total_words_step, maskable, table_ok, to_eptyp, total_words,
    EndpointData,
};
use crate::types::{Direction, EndpointAddress, Event, Unsupported, MAX_ENDPOINTS};
use vstd::prelude::*;

verus! {

/// How often the core is polled for the end of a reset.
pub const RESET_POLLS: u32 = 200000;

/// How often an endpoint is polled for the end of a transfer that a bus reset aborts.
pub const DISABLE_POLLS: u32 = 1000;

/// Bytes of the three SETUP packets that the DMA engine may put into the SETUP buffer.
pub const SETUP_DMA_BYTES: u32 = 24;

/// USB bus.
pub struct Bus<const MAX_EP_COUNT: usize> {
    /// The configuration.
    pub config: Config,
    /// The IN endpoints.
    pub ep_in: [Option<EndpointData>; MAX_EP_COUNT],
    /// The OUT endpoints.
    pub ep_out: [Option<EndpointData>; MAX_EP_COUNT],
    /// The hardware.
    pub instance: OtgInstance,
    /// Whether the core has been initialized.
    pub inited: bool,
}

/// What is to be done next about a bus event.
#[derive(Copy, Clone, Debug, PartialEq, Eq, Structural)]
pub enum PollOutcome {
    /// An event has happened.
    Ready(Event),
    /// Nothing has happened yet.
    Pending,
    /// GINTSTS is to be read, and handed to [`Bus::poll_interrupts`].
    ReadGintsts,
    /// GOTGINT is to be read, and handed to [`Bus::poll_otg`].
    ReadGotgint,
}

/// One step towards a bus event.
pub struct PollStep {
    /// What is to be done first.
    pub actions: Vec<Action>,
    /// What follows.
    pub outcome: PollOutcome,
}

/// The actions that stop a transfer in progress.
pub open spec fn cancel_actions(dir: Direction, index: usize, epena: bool) -> Seq<Action> {
    let stop = Epctl { snak: Some(true), epdis: Some(true), ..Epctl::none() };
    if !epena {
        Seq::empty()
    } else {
        match dir {
            Direction::Out => seq![Action::ModifyDoepctl(index, stop)],
            Direction::In => seq![Action::ModifyDiepctl(index, stop)],
        }
    }
}

/// Cancels the transfer on an endpoint if it is active.
pub fn cancel_transfer(dir: Direction, index: usize, epena: bool) -> (r: Vec<Action>)
    ensures
        r@ == cancel_actions(dir, index, epena),
{
    if !epena {
        return Vec::new();
    }
    let stop = Epctl { snak: Some(true), epdis: Some(true), ..Epctl::none() };
    match dir {
        Direction::Out => vec![Action::ModifyDoepctl(index, stop)],
        Direction::In => vec![Action::ModifyDiepctl(index, stop)],
    }
}

/// The actions that abort a transmission at a bus reset.
pub open spec fn abort_in_actions(index: usize, epena: bool) -> Seq<Action> {
    if epena {
        seq![
            Action::ModifyDiepctl(
                index,
                Epctl { epdis: Some(true), snak: Some(true), ..Epctl::none() },
            ),
            Action::WaitInDisabled(index, DISABLE_POLLS),
        ]
    } else {
        Seq::empty()
    }
}

/// Aborts a transmission at a bus reset, so that no DMA transfer stays pending.
pub fn abort_in(index: usize, epena: bool) -> (r: Vec<Action>)
    ensures
        r@ == abort_in_actions(index, epena),
{
    if !epena {
        return Vec::new();
    }
    vec![
        Action::ModifyDiepctl(
            index,
            Epctl { epdis: Some(true), snak: Some(true), ..Epctl::none() },
        ),
        Action::WaitInDisabled(index, DISABLE_POLLS),
    ]
}

/// The actions that set the turnaround time.
pub open spec fn turnaround_actions(trdt: u8) -> Seq<Action> {
    seq![Action::ModifyGusbcfg(Gusbcfg { trdt: Some(trdt), ..Gusbcfg::none() })]
}

/// Sets the turnaround time for the enumerated speed.
pub fn turnaround(trdt: u8) -> (r: Vec<Action>)
    ensures
        r@ == turnaround_actions(trdt),
{
    vec![Action::ModifyGusbcfg(Gusbcfg { trdt: Some(trdt), ..Gusbcfg::none() })]
}

/// The actions that let the DMA engine receive the next SETUP packets into the buffer at `addr`.
pub open spec fn arm_setup_actions(index: usize, addr: u32) -> Seq<Action> {
    seq![
        Action::WriteDoeptsiz(
            index,
            Doeptsiz {
                pktcnt: Some(1),
                xfrsiz: Some(SETUP_DMA_BYTES),
                rxdpid_stupcnt: Some(3),
            },
        ),
        Action::WriteDoepdma(index, addr),
        Action::ModifyDoepctl(
            index,
            Epctl { cnak: Some(true), epena: Some(true), ..Epctl::none() },
        ),
    ]
}

/// Lets the DMA engine receive the next SETUP packets into the buffer at `addr`.
pub fn arm_setup(index: usize, addr: u32) -> (r: Vec<Action>)
    ensures
        r@ == arm_setup_actions(index, addr),
{
    vec![
        Action::WriteDoeptsiz(
            index,
            Doeptsiz {
                pktcnt: Some(1),
                xfrsiz: Some(SETUP_DMA_BYTES),
                rxdpid_stupcnt: Some(3),
            },
        ),
        Action::WriteDoepdma(index, addr),
        Action::ModifyDoepctl(
            index,
            Epctl { cnak: Some(true), epena: Some(true), ..Epctl::none() },
        ),
    ]
}

impl<const MAX_EP_COUNT: usize> Bus<MAX_EP_COUNT> {
    /// Whether transfers go through the DMA engine.
    pub open spec fn dma(self) -> bool {
        self.instance.uses_dma(self.config)
    }

    /// FIFO words that are given out.
    pub open spec fn allocated_words(self) -> int {
        self.instance.extra_rx_fifo_words + total_words(self.ep_out@) + total_words(self.ep_in@)
    }

    /// Whether what is allocated lies within the number of endpoints and the FIFO.
    pub open spec fn wf(self) -> bool {
        &&& self.instance.endpoint_count <= MAX_EP_COUNT
        &&& self.instance.endpoint_count <= MAX_ENDPOINTS
        &&& table_ok(self.ep_in@, Direction::In, self.instance.endpoint_count as int)
        &&& table_ok(self.ep_out@, Direction::Out, self.instance.endpoint_count as int)
        &&& self.allocated_words() <= self.instance.fifo_depth_words
    }

    /// Whether the core can be configured for the endpoints: endpoint 0 has one of the sizes that
    /// the core supports, and every endpoint has a bit in the interrupt mask.
    pub open spec fn configurable(self) -> bool {
        &&& MAX_EP_COUNT > 0 ==> {
            &&& self.ep_in@[0] matches Some(ep) ==> ep0_size_supported(ep.max_packet_size)
            &&& self.ep_out@[0] matches Some(ep) ==> ep0_size_supported(ep.max_packet_size)
        }
        &&& maskable(self.ep_in@)
        &&& maskable(self.ep_out@)
    }

    /// The interrupts that are unmasked while the bus waits for an event.
    pub open spec fn bus_irqs(self) -> Gintmsk {
        Gintmsk {
            usbrst: true,
            enumdnem: true,
            usbsuspm: true,
            wuim: true,
            iepint: true,
            oepint: true,
            rxflvlm: !self.dma(),
            srqim: true,
            otgint: true,
        }
    }

    /// Unmasks the interrupts that the bus waits for.
    pub fn restore_irqs(&self) -> (r: Vec<Action>)
        ensures
            r@ == seq![Action::WriteGintmsk(self.bus_irqs())],
    {
        // the receive queue raises interrupts in FIFO mode only
        let dma_enabled = self.instance.dma_in_use(&self.config);
        vec![
            Action::WriteGintmsk(
                Gintmsk {
                    usbrst: true,
                    enumdnem: true,
                    usbsuspm: true,
                    wuim: true,
                    iepint: true,
                    oepint: true,
                    rxflvlm: !dma_enabled,
                    srqim: true,
                    otgint: true,
                },
            ),
        ]
    }

    /// Returns the PHY type.
    pub fn phy_type(&self) -> (r: PhyType)
        ensures
            r == self.instance.phy_type,
    {
        self.instance.phy_type
    }

    /// Configures the PHY as a device.
    pub fn configure_as_device(&self) -> (r: Vec<Action>)
        ensures
            r@ == seq![
                Action::WriteGusbcfg(
                    Gusbcfg {
                        fdmod: Some(true),
                        physel: Some(
                            self.instance.phy_type.is_internal()
                                && !self.instance.phy_type.is_high_speed(),
                        ),
                        ..Gusbcfg::none()
                    },
                ),
            ],
    {
        let phy_type = self.instance.phy_type;
        vec![
            Action::WriteGusbcfg(
                Gusbcfg {
                    // force device mode
                    fdmod: Some(true),
                    // enable the internal full-speed PHY
                    physel: Some(phy_type.internal() && !phy_type.high_speed()),
                    ..Gusbcfg::none()
                },
            ),
        ]
    }

    /// Applies the configuration specific to core IDs 0x0000_1100 and 0x0000_1200, which have no
    /// internal high-speed PHY.
    pub fn config_v1(&self) -> (r: Vec<Action>)
        requires
            self.instance.phy_type !is InternalHighSpeed,
        ensures
            r@ == seq![
                Action::ModifyGccfgV1(
                    GccfgV1 {
                        pwrdwn: Some(self.instance.phy_type.is_internal()),
                        ..GccfgV1::none()
                    },
                ),
                Action::ModifyGccfgV1(
                    GccfgV1 {
                        novbussens: Some(!self.config.vbus_detection),
                        vbusasen: Some(false),
                        vbusbsen: Some(self.config.vbus_detection),
                        sofouten: Some(false),
                        ..GccfgV1::none()
                    },
                ),
            ],
    {
        vec![
            // enable the internal full-speed PHY, logic is inverted
            Action::ModifyGccfgV1(
                GccfgV1 { pwrdwn: Some(self.instance.phy_type.internal()), ..GccfgV1::none() },
            ),
            // F429-like chips have the GCCFG.NOVBUSSENS bit
            Action::ModifyGccfgV1(
                GccfgV1 {
                    novbussens: Some(!self.config.vbus_detection),
                    vbusasen: Some(false),
                    vbusbsen: Some(self.config.vbus_detection),
                    sofouten: Some(false),
                    ..GccfgV1::none()
                },
            ),
        ]
    }

    /// Applies the configuration specific to core IDs 0x0000_2000, 0x0000_2100, 0x0000_2300,
    /// 0x0000_3000 and 0x0000_3100.
    pub fn config_v2v3(&self) -> (r: Vec<Action>)
        ensures
            r@ == seq![
                Action::ModifyGccfgV2(
                    GccfgV2 {
                        pwrdwn: Some(
                            self.instance.phy_type.is_internal()
                                && !self.instance.phy_type.is_high_speed(),
                        ),
                        phyhsen: Some(
                            self.instance.phy_type.is_internal()
                                && self.instance.phy_type.is_high_speed(),
                        ),
                        ..GccfgV2::none()
                    },
                ),
                Action::ModifyGccfgV2(
                    GccfgV2 { vbden: Some(self.config.vbus_detection), ..GccfgV2::none() },
                ),
                Action::ModifyGotgctl(
                    Gotgctl {
                        bvaloen: Some(!self.config.vbus_detection),
                        bvaloval: Some(true),
                    },
                ),
            ],
    {
        let phy_type = self.instance.phy_type;
        vec![
            // F446-like chips have the GCCFG.VBDEN bit with the opposite meaning
            Action::ModifyGccfgV2(
                GccfgV2 {
                    // enable the internal full-speed PHY, logic is inverted
                    pwrdwn: Some(phy_type.internal() && !phy_type.high_speed()),
                    phyhsen: Some(phy_type.internal() && phy_type.high_speed()),
                    ..GccfgV2::none()
                },
            ),
            Action::ModifyGccfgV2(
                GccfgV2 { vbden: Some(self.config.vbus_detection), ..GccfgV2::none() },
            ),
            // force the B-peripheral session
            Action::ModifyGotgctl(
                Gotgctl { bvaloen: Some(!self.config.vbus_detection), bvaloval: Some(true) },
            ),
        ]
    }

    /// Applies the configuration specific to core ID 0x0000_5000.
    pub fn config_v5(&self) -> (r: Vec<Action>)
        ensures
            r@ == if self.instance.phy_type is InternalHighSpeed {
                seq![
                    Action::ModifyGccfgV3(
                        GccfgV3 {
                            vbvaloven: Some(!self.config.vbus_detection),
                            vbvaloval: Some(!self.config.vbus_detection),
                            vbden: Some(self.config.vbus_detection),
                        },
                    ),
                ]
            } else {
                seq![
                    Action::ModifyGotgctl(
                        Gotgctl {
                            bvaloen: Some(!self.config.vbus_detection),
                            bvaloval: Some(!self.config.vbus_detection),
                        },
                    ),
                    Action::ModifyGccfgV3(
                        GccfgV3 { vbden: Some(self.config.vbus_detection), ..GccfgV3::none() },
                    ),
                ]
            },
    {
        let vbus_detection = self.config.vbus_detection;
        if self.instance.phy_type == PhyType::InternalHighSpeed {
            vec![
                Action::ModifyGccfgV3(
                    GccfgV3 {
                        vbvaloven: Some(!vbus_detection),
                        vbvaloval: Some(!vbus_detection),
                        vbden: Some(vbus_detection),
                    },
                ),
            ]
        } else {
            vec![
                Action::ModifyGotgctl(
                    Gotgctl { bvaloen: Some(!vbus_detection), bvaloval: Some(!vbus_detection) },
                ),
                Action::ModifyGccfgV3(
                    GccfgV3 { vbden: Some(vbus_detection), ..GccfgV3::none() },
                ),
            ]
        }
    }

    /// The actions that reset the AR8030's core.
    pub open spec fn core_reset_actions(self) -> Seq<Action> {
        if self.instance.features.ar8030 {
            seq![
                Action::WaitAhbIdle(RESET_POLLS),
                Action::ModifyGrstctl(Grstctl { csrst: Some(true), ..Grstctl::none() }),
                Action::WaitCoreReset(RESET_POLLS),
            ]
        } else {
            Seq::empty()
        }
    }

    /// The actions that initialize the core.
    pub open spec fn init_actions(self) -> Seq<Action> {
        self.core_reset_actions() + seq![
            Action::WriteDctl(Dctl { sdis: Some(true), ..Dctl::none() }),
            Action::WriteDcfg(
                Dcfg {
                    pfivl: Some(Pfivl::FrameInterval80),
                    dspd: Some(self.instance.phy_type.speed()),
                    xcvrdly: if self.config.xcvrdly {
                        Some(true)
                    } else {
                        None
                    },
                    ..Dcfg::none()
                },
            ),
            Action::WriteDiepmsk(true),
            Action::WriteDoepmsk(Doepmsk { stupm: true, xfrcm: true, epdm: true, otepdm: true }),
            Action::WriteGintmsk(self.bus_irqs()),
            Action::WriteGintstsBits(0xFFFF_FFFF),
            Action::WriteGahbcfg(
                Gahbcfg {
                    gint: true,
                    hbstlen: if self.dma() {
                        4
                    } else {
                        0
                    },
                    dmaen: self.dma(),
                },
            ),
            Action::WriteDctl(Dctl { sdis: Some(false), ..Dctl::none() }),
        ]
    }

    /// Initializes the core.
    pub fn init(&self, state: &mut State<MAX_EP_COUNT>) -> (r: Vec<Action>)
        ensures
            r@ == self.init_actions(),
            *final(state) == (State {
                dma_enabled: old(state).dma_enabled || self.dma(),
                ..*old(state)
            }),
    {
        let dma_enabled = self.instance.dma_in_use(&self.config);
        let mut actions: Vec<Action> = Vec::new();
        if self.instance.features.ar8030 {
            // wait for the AHB master to be idle, then trigger a core soft reset
            actions.push(Action::WaitAhbIdle(RESET_POLLS));
            actions.push(
                Action::ModifyGrstctl(Grstctl { csrst: Some(true), ..Grstctl::none() }),
            );
            actions.push(Action::WaitCoreReset(RESET_POLLS));
        }
        // soft disconnect
        actions.push(Action::WriteDctl(Dctl { sdis: Some(true), ..Dctl::none() }));
        // set speed
        actions.push(
            Action::WriteDcfg(
                Dcfg {
                    pfivl: Some(Pfivl::FrameInterval80),
                    dspd: Some(self.instance.phy_type.to_dspd()),
                    xcvrdly: if self.config.xcvrdly {
                        Some(true)
                    } else {
                        None
                    },
                    ..Dcfg::none()
                },
            ),
        );
        // unmask the transfer complete interrupt of IN endpoints
        actions.push(Action::WriteDiepmsk(true));
        // unmask the interrupts of OUT endpoints
        actions.push(
            Action::WriteDoepmsk(Doepmsk { stupm: true, xfrcm: true, epdm: true, otepdm: true }),
        );
        // unmask and clear core interrupts
        actions.append(&mut self.restore_irqs());
        actions.push(Action::WriteGintstsBits(0xFFFF_FFFF));
        if dma_enabled {
            // for the interrupt handler
            state.dma_enabled = true;
        }
        // unmask the global interrupt; DMA runs in bursts of four words
        actions.push(
            Action::WriteGahbcfg(
                Gahbcfg {
                    gint: true,
                    hbstlen: if dma_enabled {
                        4
                    } else {
                        0
                    },
                    dmaen: dma_enabled,
                },
            ),
        );
        // connect
        actions.push(Action::WriteDctl(Dctl { sdis: Some(false), ..Dctl::none() }));
        proof {
            assert(actions@ == self.init_actions());
        }
        actions
    }

    /// Words of the receive FIFO, which all OUT endpoints share.
    pub open spec fn rx_words(self) -> int {
        self.instance.extra_rx_fifo_words + total_words(self.ep_out@)
    }

    /// Where the transmit FIFO of endpoint `i` starts: behind the receive FIFO and those of the
    /// endpoints before it.
    pub open spec fn tx_start(self, i: int) -> int {
        self.rx_words() + total_words(self.ep_in@.take(i))
    }

    /// The transmit FIFO of endpoint `i`, where it is allocated.
    pub open spec fn tx_fifo(self, i: int) -> Seq<Action> {
        match self.ep_in@[i] {
            Some(ep) => {
                let fifo = Dieptxf { fd: ep.fifo_size_words, sa: self.tx_start(i) as u16 };
                if i == 0 {
                    seq![Action::WriteDieptxf0(fifo)]
                } else {
                    seq![Action::WriteDieptxf((i - 1) as usize, fifo)]
                }
            },
            None => Seq::empty(),
        }
    }

    /// The actions that lay out the FIFOs.
    pub open spec fn init_fifo_actions(self) -> Seq<Action> {
        seq![Action::EnterCritical, Action::ModifyGrxfsiz(self.rx_words() as u16)] + each(
            self.instance.endpoint_count as int,
            |i: int| self.tx_fifo(i),
        ) + seq![
            Action::WriteGrstctl(
                Grstctl {
                    rxfflsh: Some(true),
                    txfflsh: Some(true),
                    txfnum: Some(0x10),
                    ..Grstctl::none()
                },
            ),
            Action::ExitCritical,
            Action::WaitFifoFlush,
        ]
    }

    /// Lays out the receive FIFO and the transmit FIFOs, and flushes them.
    pub fn init_fifo(&self) -> (r: Vec<Action>)
        requires
            self.wf(),
        ensures
            r@ == self.init_fifo_actions(),
    {
        proof {
            lemma_total_words_monotonic(self.ep_out@, 0);
            lemma_total_words_monotonic(self.ep_in@, 0);
        }
        let mut actions: Vec<Action> = Vec::new();
        // ERRATA: the interrupt handler must not access FIFOs while they are being set up
        actions.push(Action::EnterCritical);
        // all OUT endpoints share the receive FIFO
        let rx_fifo_size_words: u16 = self.instance.extra_rx_fifo_words + ep_fifo_size(
            &self.ep_out,
        );
        actions.push(Action::ModifyGrxfsiz(rx_fifo_size_words));
        // each IN endpoint has a transmit FIFO of its own
        let mut fifo_top: u16 = rx_fifo_size_words;
        let ghost head = actions@;
        let ghost f = |i: int| self.tx_fifo(i);
        let mut i: usize = 0;
        proof {
            assert(self.ep_in@.take(0) =~= Seq::empty());
        }
        while i < self.instance.endpoint_count
            invariant
                self.wf(),
                i <= self.instance.endpoint_count,
                f == (|i: int| self.tx_fifo(i)),
                fifo_top == self.tx_start(i as int),
                actions@ == head + each(i as int, f),
            decreases self.instance.endpoint_count - i,
        {
            proof {
                lemma_total_words_step(self.ep_in@, i as int);
                lemma_total_words_monotonic(self.ep_in@, i + 1);
            }
            if let Some(ep) = self.ep_in[i] {
                let fifo = Dieptxf { fd: ep.fifo_size_words, sa: fifo_top };
                if i == 0 {
                    actions.push(Action::WriteDieptxf0(fifo));
                } else {
                    actions.push(Action::WriteDieptxf(i - 1, fifo));
                }
                fifo_top = fifo_top + ep.fifo_size_words;
            }
            i = i + 1;
            proof {
                assert(actions@ == head + each(i as int, f));
            }
        }
        // flush all FIFOs
        actions.push(
            Action::WriteGrstctl(
                Grstctl {
                    rxfflsh: Some(true),
                    txfflsh: Some(true),
                    txfnum: Some(0x10),
                    ..Grstctl::none()
                },
            ),
        );
        actions.push(Action::ExitCritical);
        actions.push(Action::WaitFifoFlush);
        proof {
            assert(actions@ == self.init_fifo_actions());
        }
        actions
    }

    /// The control register of an IN endpoint.
    pub open spec fn in_control(self, i: int, ep: EndpointData) -> Epctl {
        if i == 0 {
            Epctl {
                mpsiz: Some(ep0_mpsiz_of(ep.max_packet_size)),
                usbaep: if self.instance.features.ar8030 {
                    Some(true)
                } else {
                    None
                },
                ..Epctl::none()
            }
        } else {
            Epctl {
                mpsiz: Some(ep.max_packet_size),
                eptyp: Some(eptyp_of(ep.ep_type)),
                sd0pid_sevnfrm: Some(true),
                txfnum: Some(i as usize as u8),
                snak: Some(true),
                ..Epctl::none()
            }
        }
    }

    /// The control register of an OUT endpoint.
    pub open spec fn out_control(self, i: int, ep: EndpointData) -> Epctl {
        if i == 0 {
            Epctl {
                mpsiz: Some(ep0_mpsiz_of(ep.max_packet_size)),
                usbaep: Some(true),
                ..Epctl::none()
            }
        } else {
            Epctl {
                mpsiz: Some(ep.max_packet_size),
                eptyp: Some(eptyp_of(ep.ep_type)),
                sd0pid_sevnfrm: Some(true),
                ..Epctl::none()
            }
        }
    }

    /// The actions that let an OUT endpoint receive its first packet: endpoint 0 waits for SETUP
    /// packets, any other endpoint for one packet once it is enabled.
    pub open spec fn first_reception(self, i: int, ep: EndpointData, setup_addr: u32) -> Seq<
        Action,
    > {
        if i != 0 {
            seq![
                Action::ModifyDoeptsiz(
                    i as usize,
                    Doeptsiz {
                        xfrsiz: Some(ep.max_packet_size as u32),
                        pktcnt: Some(1),
                        ..Doeptsiz::none()
                    },
                ),
            ]
        } else if self.dma() {
            arm_setup_actions(0, setup_addr)
        } else {
            seq![
                Action::WriteDoeptsiz(
                    0,
                    Doeptsiz {
                        xfrsiz: Some(ep.max_packet_size as u32),
                        rxdpid_stupcnt: Some(3),
                        ..Doeptsiz::none()
                    },
                ),
                Action::ModifyDoepctl(
                    0,
                    Epctl { cnak: Some(true), epena: Some(true), ..Epctl::none() },
                ),
            ]
        }
    }

    /// The actions that configure one IN endpoint, where it is allocated.
    pub open spec fn configure_in(self, i: int) -> Seq<Action> {
        match self.ep_in@[i] {
            Some(ep) => seq![
                Action::EnterCritical,
                Action::WriteDiepctl(i as usize, self.in_control(i, ep)),
                Action::ExitCritical,
            ],
            None => Seq::empty(),
        }
    }

    /// The actions that configure one OUT endpoint, where it is allocated.
    pub open spec fn configure_out(self, i: int, setup_addr: u32) -> Seq<Action> {
        match self.ep_out@[i] {
            Some(ep) => seq![
                Action::EnterCritical,
                Action::WriteDoepctl(i as usize, self.out_control(i, ep)),
            ] + self.first_reception(i, ep, setup_addr) + seq![Action::ExitCritical],
            None => Seq::empty(),
        }
    }

    /// The actions that configure the endpoints.
    pub open spec fn configure_endpoints_actions(self, setup_addr: u32) -> Seq<Action> {
        each(MAX_EP_COUNT as int, |i: int| self.configure_in(i)) + each(
            MAX_EP_COUNT as int,
            |i: int| self.configure_out(i, setup_addr),
        ) + seq![
            Action::ModifyDaintmsk(
                Daintmsk {
                    iepm: Some(irq_mask(self.ep_in@)),
                    oepm: Some(irq_mask(self.ep_out@)),
                },
            ),
        ]
    }

    /// Configures the allocated endpoints and enables their interrupts.
    pub fn configure_endpoints(&self, state: &State<MAX_EP_COUNT>) -> (r: Vec<Action>)
        requires
            self.configurable(),
        ensures
            r@ == self.configure_endpoints_actions(state.setup_dma_buf as u32),
    {
        let setup_addr: u32 = state.setup_dma_buf_addr();
        let mut actions: Vec<Action> = Vec::new();
        let mut index: usize = 0;
        let ghost fin = |i: int| self.configure_in(i);
        while index < MAX_EP_COUNT
            invariant
                self.configurable(),
                index <= MAX_EP_COUNT,
                fin == (|i: int| self.configure_in(i)),
                actions@ == each(index as int, fin),
            decreases MAX_EP_COUNT - index,
        {
            if let Some(ep) = self.ep_in[index] {
                actions.push(Action::EnterCritical);
                let control = if index == 0 {
                    Epctl {
                        mpsiz: Some(ep0_mpsiz(ep.max_packet_size)),
                        // the AR8030 needs endpoint 0 to be set active
                        usbaep: if self.instance.features.ar8030 {
                            Some(true)
                        } else {
                            None
                        },
                        ..Epctl::none()
                    }
                } else {
                    Epctl {
                        mpsiz: Some(ep.max_packet_size),
                        eptyp: Some(to_eptyp(ep.ep_type)),
                        sd0pid_sevnfrm: Some(true),
                        txfnum: Some(index as u8),
                        snak: Some(true),
                        ..Epctl::none()
                    }
                };
                actions.push(Action::WriteDiepctl(index, control));
                actions.push(Action::ExitCritical);
            }
            index = index + 1;
            proof {
                assert(actions@ == each(index as int, fin));
            }
        }
        let ghost head = actions@;
        let ghost fout = |i: int| self.configure_out(i, setup_addr);
        index = 0;
        while index < MAX_EP_COUNT
            invariant
                self.configurable(),
                index <= MAX_EP_COUNT,
                fout == (|i: int| self.configure_out(i, setup_addr)),
                actions@ == head + each(index as int, fout),
            decreases MAX_EP_COUNT - index,
        {
            if let Some(ep) = self.ep_out[index] {
                actions.push(Action::EnterCritical);
                let control = if index == 0 {
                    Epctl {
                        mpsiz: Some(ep0_mpsiz(ep.max_packet_size)),
                        usbaep: Some(true),
                        ..Epctl::none()
                    }
                } else {
                    Epctl {
                        mpsiz: Some(ep.max_packet_size),
                        eptyp: Some(to_eptyp(ep.ep_type)),
                        sd0pid_sevnfrm: Some(true),
                        ..Epctl::none()
                    }
                };
                actions.push(Action::WriteDoepctl(index, control));
                if index != 0 {
                    actions.push(
                        Action::ModifyDoeptsiz(
                            index,
                            Doeptsiz {
                                xfrsiz: Some(ep.max_packet_size as u32),
                                pktcnt: Some(1),
                                ..Doeptsiz::none()
                            },
                        ),
                    );
                } else if self.instance.dma_in_use(&self.config) {
                    actions.append(&mut arm_setup(0, setup_addr));
                } else {
                    actions.push(
                        Action::WriteDoeptsiz(
                            0,
                            Doeptsiz {
                                xfrsiz: Some(ep.max_packet_size as u32),
                                rxdpid_stupcnt: Some(3),
                                ..Doeptsiz::none()
                            },
                        ),
                    );
                    actions.push(
                        Action::ModifyDoepctl(
                            0,
                            Epctl { cnak: Some(true), epena: Some(true), ..Epctl::none() },
                        ),
                    );
                }
                actions.push(Action::ExitCritical);
            }
            index = index + 1;
            proof {
                assert(actions@ == head + each(index as int, fout));
            }
        }
        // enable the interrupts of allocated endpoints
        actions.push(
            Action::ModifyDaintmsk(
                Daintmsk {
                    iepm: Some(ep_irq_mask(&self.ep_in)),
                    oepm: Some(ep_irq_mask(&self.ep_out)),
                },
            ),
        );
        proof {
            assert(actions@ == self.configure_endpoints_actions(setup_addr));
        }
        actions
    }

    /// The actions that set or clear the STALL condition of an endpoint.
    pub open spec fn set_stalled_actions(ep_addr: EndpointAddress, stalled: bool) -> Seq<Action> {
        let i = ep_addr.number() as usize;
        let control = Epctl { stall: Some(stalled), ..Epctl::none() };
        match ep_addr.heading() {
            Direction::Out => seq![
                Action::EnterCritical,
                Action::ModifyDoepctl(i, control),
                Action::ExitCritical,
                Action::WakeOut(i),
            ],
            Direction::In => seq![
                Action::EnterCritical,
                Action::ModifyDiepctl(i, control),
                Action::ExitCritical,
                Action::WakeIn(i),
            ],
        }
    }

    /// Sets or clears the STALL condition of an endpoint.
    pub fn endpoint_set_stalled(&self, ep_addr: EndpointAddress, stalled: bool) -> (r: Vec<Action>)
        requires
            ep_addr.number() < self.instance.endpoint_count,
        ensures
            r@ == Self::set_stalled_actions(ep_addr, stalled),
    {
        let i: usize = ep_addr.index();
        let control = Epctl { stall: Some(stalled), ..Epctl::none() };
        match ep_addr.direction() {
            Direction::Out => vec![
                Action::EnterCritical,
                Action::ModifyDoepctl(i, control),
                Action::ExitCritical,
                Action::WakeOut(i),
            ],
            Direction::In => vec![
                Action::EnterCritical,
                Action::ModifyDiepctl(i, control),
                Action::ExitCritical,
                Action::WakeIn(i),
            ],
        }
    }

    /// Gets whether the STALL condition is set for an endpoint, from the control registers of its
    /// number.
    pub fn endpoint_is_stalled(
        &self,
        ep_addr: EndpointAddress,
        diepctl: EpStatus,
        doepctl: EpStatus,
    ) -> (r: bool)
        requires
            ep_addr.number() < self.instance.endpoint_count,
        ensures
            r == match ep_addr.heading() {
                Direction::Out => doepctl.stall,
                Direction::In => diepctl.stall,
            },
    {
        match ep_addr.direction() {
            Direction::Out => doepctl.stall,
            Direction::In => diepctl.stall,
        }
    }

    /// The actions that enable or disable an endpoint.
    pub open spec fn set_enabled_actions(ep_addr: EndpointAddress, enabled: bool) -> Seq<Action> {
        let i = ep_addr.number() as usize;
        let dir = ep_addr.heading();
        let cancel = if enabled {
            Seq::empty()
        } else {
            seq![Action::Probe(Probe::CancelTransfer(dir, i))]
        };
        seq![Action::EnterCritical] + cancel + match dir {
            Direction::Out => seq![
                Action::ModifyDoepctl(i, Epctl { usbaep: Some(enabled), ..Epctl::none() }),
                Action::WriteGrstctl(
                    Grstctl { txfflsh: Some(true), txfnum: Some(i as u8), ..Grstctl::none() },
                ),
                Action::WaitTxFlush,
                Action::ExitCritical,
                Action::WakeOut(i),
            ],
            Direction::In => seq![
                Action::ModifyDiepctl(
                    i,
                    Epctl { usbaep: Some(enabled), cnak: Some(enabled), ..Epctl::none() },
                ),
                Action::ExitCritical,
                Action::WakeIn(i),
            ],
        }
    }

    /// Enables or disables an endpoint, and wakes whoever waits for it.
    pub fn endpoint_set_enabled(&self, ep_addr: EndpointAddress, enabled: bool) -> (r: Vec<Action>)
        requires
            ep_addr.number() < self.instance.endpoint_count,
        ensures
            r@ == Self::set_enabled_actions(ep_addr, enabled),
    {
        let i: usize = ep_addr.index();
        let dir = ep_addr.direction();
        let mut actions: Vec<Action> = Vec::new();
        actions.push(Action::EnterCritical);
        if !enabled {
            // cancel the transfer if it is active
            actions.push(Action::Probe(Probe::CancelTransfer(dir, i)));
        }
        match dir {
            Direction::Out => {
                actions.push(
                    Action::ModifyDoepctl(i, Epctl { usbaep: Some(enabled), ..Epctl::none() }),
                );
                // flush the transmit FIFO
                actions.push(
                    Action::WriteGrstctl(
                        Grstctl { txfflsh: Some(true), txfnum: Some(i as u8), ..Grstctl::none() },
                    ),
                );
                actions.push(Action::WaitTxFlush);
                actions.push(Action::ExitCritical);
                actions.push(Action::WakeOut(i));
            },
            Direction::In => {
                // clears the NAK that cancelling may have set
                actions.push(
                    Action::ModifyDiepctl(
                        i,
                        Epctl { usbaep: Some(enabled), cnak: Some(enabled), ..Epctl::none() },
                    ),
                );
                actions.push(Action::ExitCritical);
                actions.push(Action::WakeIn(i));
            },
        }
        proof {
            assert(actions@ == Self::set_enabled_actions(ep_addr, enabled));
        }
        actions
    }

    /// The actions that disable both endpoints of number `i`.
    pub open spec fn disable_actions(i: int) -> Seq<Action> {
        Self::set_enabled_actions(EndpointAddress::of(i, Direction::In), false)
            + Self::set_enabled_actions(EndpointAddress::of(i, Direction::Out), false)
    }

    /// Disables both endpoints of number `i`.
    fn disable_both(&self, i: usize) -> (r: Vec<Action>)
        requires
            i < self.instance.endpoint_count,
        ensures
            r@ == Self::disable_actions(i as int),
    {
        let mut actions = self.endpoint_set_enabled(
            EndpointAddress::from_parts(i, Direction::In),
            false,
        );
        actions.append(
            &mut self.endpoint_set_enabled(EndpointAddress::from_parts(i, Direction::Out), false),
        );
        actions
    }

    /// The actions that disable all endpoints.
    pub open spec fn disable_all_actions(self) -> Seq<Action> {
        each(self.instance.endpoint_count as int, |i: int| Self::disable_actions(i))
    }

    /// Disables all endpoints.
    pub fn disable_all_endpoints(&self) -> (r: Vec<Action>)
        ensures
            r@ == self.disable_all_actions(),
    {
        let mut actions: Vec<Action> = Vec::new();
        let ghost f = |i: int| Self::disable_actions(i);
        let mut i: usize = 0;
        while i < self.instance.endpoint_count
            invariant
                i <= self.instance.endpoint_count,
                f == (|i: int| Self::disable_actions(i)),
                actions@ == each(i as int, f),
            decreases self.instance.endpoint_count - i,
        {
            actions.append(&mut self.disable_both(i));
            i = i + 1;
            proof {
                assert(actions@ == each(i as int, f));
            }
        }
        actions
    }

    /// The actions that abort what is being sent, and acknowledge what is pending, on IN endpoint
    /// `i`.
    pub open spec fn abort_endpoint(i: int) -> Seq<Action> {
        seq![Action::Probe(Probe::AbortIn(i as usize)), Action::AckDiepint(i as usize)]
    }

    /// The actions that wake whoever waits for an endpoint of number `i`.
    pub open spec fn wake_endpoint(i: int) -> Seq<Action> {
        seq![Action::WakeIn(i as usize), Action::WakeOut(i as usize)]
    }

    /// The actions that abort what is being sent on every endpoint.
    pub open spec fn abort_all_actions(self) -> Seq<Action> {
        each(self.instance.endpoint_count as int, |i: int| Self::abort_endpoint(i))
    }

    /// The actions that wake whoever waits for an endpoint.
    pub open spec fn wake_all_actions(self) -> Seq<Action> {
        each(self.instance.endpoint_count as int, |i: int| Self::wake_endpoint(i))
    }

    /// The actions that end a bus reset: the address goes back to 0, and the interrupt is
    /// acknowledged.
    pub open spec fn end_reset_actions(self) -> Seq<Action> {
        seq![
            Action::EnterCritical,
            Action::ModifyDcfg(Dcfg { dad: Some(0), ..Dcfg::none() }),
            Action::ExitCritical,
            Action::WriteGintsts(Gintsts { usbrst: true, ..Gintsts::none() }),
            Action::WriteGintmsk(self.bus_irqs()),
        ]
    }

    /// The actions that follow a bus reset.
    pub open spec fn reset_actions(self, setup_addr: u32) -> Seq<Action> {
        self.abort_all_actions() + self.wake_all_actions() + self.init_fifo_actions()
            + self.configure_endpoints_actions(setup_addr) + self.end_reset_actions()
    }

    /// Handles a bus reset: aborts transmissions, wakes all endpoints, sets up the FIFOs and the
    /// endpoints anew, and goes back to address 0.
    pub fn reset(&self, state: &State<MAX_EP_COUNT>) -> (r: Vec<Action>)
        requires
            self.wf(),
            self.configurable(),
        ensures
            r@ == self.reset_actions(state.setup_dma_buf as u32),
    {
        let count: usize = self.instance.endpoint_count;
        let mut actions: Vec<Action> = Vec::new();
        let ghost fabort = |i: int| Self::abort_endpoint(i);
        let mut i: usize = 0;
        while i < count
            invariant
                i <= count,
                fabort == (|i: int| Self::abort_endpoint(i)),
                actions@ == each(i as int, fabort),
            decreases count - i,
        {
            actions.push(Action::Probe(Probe::AbortIn(i)));
            actions.push(Action::AckDiepint(i));
            i = i + 1;
            proof {
                assert(actions@ == each(i as int, fabort));
            }
        }
        // pending transfers must notice the reset rather than wait for ever
        let ghost head = actions@;
        let ghost fwake = |i: int| Self::wake_endpoint(i);
        i = 0;
        while i < count
            invariant
                i <= count,
                fwake == (|i: int| Self::wake_endpoint(i)),
                actions@ == head + each(i as int, fwake),
            decreases count - i,
        {
            actions.push(Action::WakeIn(i));
            actions.push(Action::WakeOut(i));
            i = i + 1;
            proof {
                assert(actions@ == head + each(i as int, fwake));
            }
        }
        actions.append(&mut self.init_fifo());
        actions.append(&mut self.configure_endpoints(state));
        // reset the address
        actions.push(Action::EnterCritical);
        actions.push(Action::ModifyDcfg(Dcfg { dad: Some(0), ..Dcfg::none() }));
        actions.push(Action::ExitCritical);
        actions.push(Action::WriteGintsts(Gintsts { usbrst: true, ..Gintsts::none() }));
        actions.append(&mut self.restore_irqs());
        proof {
            assert(actions@ == self.reset_actions(state.setup_dma_buf as u32));
        }
        actions
    }

    /// The actions that the pending interrupts call for, after those about VBUS.
    pub open spec fn late_actions(self, ints: Gintsts, setup_addr: u32) -> Seq<Action> {
        (if ints.usbrst {
            self.reset_actions(setup_addr)
        } else {
            Seq::empty()
        }) + self.event_actions(ints)
    }

    /// The actions that go with the event that the pending interrupts call for, after those about
    /// VBUS.
    pub open spec fn event_actions(self, ints: Gintsts) -> Seq<Action> {
        let clear = Gintsts::none();
        if ints.enumdne {
            seq![
                Action::Probe(Probe::EnumSpeed),
                Action::ModifyDctl(Dctl { cginak: Some(true), ..Dctl::none() }),
                Action::WriteGintsts(Gintsts { enumdne: true, ..clear }),
                Action::WriteGintmsk(self.bus_irqs()),
            ]
        } else if ints.usbsusp {
            seq![
                Action::WriteGintsts(Gintsts { usbsusp: true, ..clear }),
                Action::WriteGintmsk(self.bus_irqs()),
            ]
        } else if ints.wkupint {
            seq![
                Action::WriteGintsts(Gintsts { wkupint: true, ..clear }),
                Action::WriteGintmsk(self.bus_irqs()),
            ]
        } else {
            Seq::empty()
        }
    }

    /// The event that the pending interrupts call for, after those about VBUS.
    pub open spec fn late_outcome(ints: Gintsts) -> PollOutcome {
        if ints.enumdne {
            PollOutcome::Ready(Event::Reset)
        } else if ints.usbsusp {
            PollOutcome::Ready(Event::Suspend)
        } else if ints.wkupint {
            PollOutcome::Ready(Event::Resume)
        } else {
            PollOutcome::Pending
        }
    }

    /// Handles the pending interrupts after those about VBUS.
    fn poll_late(&self, state: &State<MAX_EP_COUNT>, ints: Gintsts) -> (r: PollStep)
        requires
            self.wf(),
            ints.usbrst ==> self.configurable(),
        ensures
            r.actions@ == self.late_actions(ints, state.setup_dma_buf as u32),
            r.outcome == Self::late_outcome(ints),
    {
        let mut actions: Vec<Action> = Vec::new();
        if ints.usbrst {
            actions.append(&mut self.reset(state));
        }
        let outcome = if ints.enumdne {
            actions.push(Action::Probe(Probe::EnumSpeed));
            // clear the global IN NAK
            actions.push(Action::ModifyDctl(Dctl { cginak: Some(true), ..Dctl::none() }));
            actions.push(Action::WriteGintsts(Gintsts { enumdne: true, ..Gintsts::none() }));
            actions.append(&mut self.restore_irqs());
            PollOutcome::Ready(Event::Reset)
        } else if ints.usbsusp {
            actions.push(Action::WriteGintsts(Gintsts { usbsusp: true, ..Gintsts::none() }));
            actions.append(&mut self.restore_irqs());
            PollOutcome::Ready(Event::Suspend)
        } else if ints.wkupint {
            actions.push(Action::WriteGintsts(Gintsts { wkupint: true, ..Gintsts::none() }));
            actions.append(&mut self.restore_irqs());
            PollOutcome::Ready(Event::Resume)
        } else {
            PollOutcome::Pending
        };
        proof {
            assert(actions@ == self.late_actions(ints, state.setup_dma_buf as u32));
        }
        PollStep { actions, outcome }
    }

    /// The actions that answer a session request.
    pub open spec fn session_actions(self, ints: Gintsts) -> Seq<Action> {
        if ints.srqint {
            seq![
                Action::WriteGintsts(Gintsts { srqint: true, ..Gintsts::none() }),
                Action::WriteGintmsk(self.bus_irqs()),
            ]
        } else {
            Seq::empty()
        }
    }

    /// Begins to wait for a bus event.
    ///
    /// The first call initializes the core. Without VBUS detection, the device is taken to be
    /// powered from then on.
    pub fn poll(&mut self, state: &mut State<MAX_EP_COUNT>) -> (r: PollStep)
        ensures
            *final(self) == (Bus { inited: true, ..*old(self) }),
            old(self).inited ==> {
                &&& *final(state) == *old(state)
                &&& r.actions@ == Seq::<Action>::empty()
                &&& r.outcome is ReadGintsts
            },
            !old(self).inited ==> {
                &&& *final(state) == (State {
                    dma_enabled: old(state).dma_enabled || old(self).dma(),
                    ..*old(state)
                })
                &&& r.actions@ == old(self).init_actions()
                &&& r.outcome == if old(self).config.vbus_detection {
                    PollOutcome::ReadGintsts
                } else {
                    PollOutcome::Ready(Event::PowerDetected)
                }
            },
    {
        if self.inited {
            return PollStep { actions: Vec::new(), outcome: PollOutcome::ReadGintsts };
        }
        let actions = self.init(state);
        self.inited = true;
        if !self.config.vbus_detection {
            return PollStep { actions, outcome: PollOutcome::Ready(Event::PowerDetected) };
        }
        PollStep { actions, outcome: PollOutcome::ReadGintsts }
    }

    /// Goes on with the pending core interrupts.
    ///
    /// A session request that is reported, and an OTG interrupt, put off everything else.
    pub fn poll_interrupts(&self, state: &State<MAX_EP_COUNT>, ints: Gintsts) -> (r: PollStep)
        requires
            self.wf(),
            ints.usbrst && !(ints.srqint && self.config.vbus_detection) && !ints.otgint
                ==> self.configurable(),
        ensures
            ints.srqint && self.config.vbus_detection ==> {
                &&& r.actions@ == self.session_actions(ints)
                &&& r.outcome == PollOutcome::Ready(Event::PowerDetected)
            },
            !(ints.srqint && self.config.vbus_detection) && ints.otgint ==> {
                &&& r.actions@ == self.session_actions(ints)
                &&& r.outcome is ReadGotgint
            },
            !(ints.srqint && self.config.vbus_detection) && !ints.otgint ==> {
                &&& r.actions@ == self.session_actions(ints) + self.late_actions(
                    ints,
                    state.setup_dma_buf as u32,
                )
                &&& r.outcome == Self::late_outcome(ints)
            },
            r.outcome == PollOutcome::Ready(Event::PowerDetected) <==> ints.srqint
                && self.config.vbus_detection,
    {
        let mut actions: Vec<Action> = Vec::new();
        if ints.srqint {
            actions.push(Action::WriteGintsts(Gintsts { srqint: true, ..Gintsts::none() }));
            actions.append(&mut self.restore_irqs());
        }
        proof {
            assert(actions@ == self.session_actions(ints));
        }
        if ints.srqint && self.config.vbus_detection {
            return PollStep { actions, outcome: PollOutcome::Ready(Event::PowerDetected) };
        }
        if ints.otgint {
            return PollStep { actions, outcome: PollOutcome::ReadGotgint };
        }
        let mut late = self.poll_late(state, ints);
        actions.append(&mut late.actions);
        PollStep { actions, outcome: late.outcome }
    }

    /// The actions that answer an OTG interrupt.
    pub open spec fn otg_actions(self, otgints: Gotgint) -> Seq<Action> {
        seq![Action::WriteGotgint(otgints.bits), Action::WriteGintmsk(self.bus_irqs())]
    }

    /// Goes on with the pending OTG interrupts.
    ///
    /// The end of a session that is reported puts off everything else.
    pub fn poll_otg(&self, state: &State<MAX_EP_COUNT>, ints: Gintsts, otgints: Gotgint) -> (r:
        PollStep)
        requires
            self.wf(),
            ints.usbrst && !(otgints.sedet && self.config.vbus_detection) ==> self.configurable(),
        ensures
            otgints.sedet && self.config.vbus_detection ==> {
                &&& r.actions@ == self.otg_actions(otgints) + self.disable_all_actions()
                &&& r.outcome == PollOutcome::Ready(Event::PowerRemoved)
            },
            !(otgints.sedet && self.config.vbus_detection) ==> {
                &&& r.actions@ == self.otg_actions(otgints) + self.late_actions(
                    ints,
                    state.setup_dma_buf as u32,
                )
                &&& r.outcome == Self::late_outcome(ints)
            },
            r.outcome == PollOutcome::Ready(Event::PowerRemoved) <==> otgints.sedet
                && self.config.vbus_detection,
    {
        let mut actions: Vec<Action> = Vec::new();
        // clear all
        actions.push(Action::WriteGotgint(otgints.bits));
        actions.append(&mut self.restore_irqs());
        proof {
            assert(actions@ == self.otg_actions(otgints));
        }
        if otgints.sedet && self.config.vbus_detection {
            actions.append(&mut self.disable_all_endpoints());
            return PollStep { actions, outcome: PollOutcome::Ready(Event::PowerRemoved) };
        }
        let mut late = self.poll_late(state, ints);
        actions.append(&mut late.actions);
        PollStep { actions, outcome: late.outcome }
    }

    /// Tests whether the core can be configured for the endpoints.
    pub fn is_configurable(&self) -> (r: bool)
        ensures
            r == self.configurable(),
    {
        let mut i: usize = 0;
        while i < MAX_EP_COUNT
            invariant
                i <= MAX_EP_COUNT,
                forall|j: int|
                    16 <= j < i ==> (#[trigger] self.ep_in@[j]) is None && self.ep_out@[j] is None,
                i > 0 ==> {
                    &&& self.ep_in@[0] matches Some(ep) ==> ep0_size_supported(ep.max_packet_size)
                    &&& self.ep_out@[0] matches Some(ep) ==> ep0_size_supported(ep.max_packet_size)
                },
            decreases MAX_EP_COUNT - i,
        {
            if i == 0 {
                if let Some(ep) = self.ep_in[i] {
                    if !is_ep0_size(ep.max_packet_size) {
                        return false;
                    }
                }
                if let Some(ep) = self.ep_out[i] {
                    if !is_ep0_size(ep.max_packet_size) {
                        return false;
                    }
                }
            } else if i >= 16 && (self.ep_in[i].is_some() || self.ep_out[i].is_some()) {
                assert(!maskable(self.ep_in@) || !maskable(self.ep_out@));
                return false;
            }
            i = i + 1;
        }
        proof {
            assert forall|j: int| 16 <= j < self.ep_out@.len() implies (
            #[trigger] self.ep_out@[j]) is None by {
                assert(self.ep_in@[j] is None);
            }
        }
        true
    }

    /// Enables the peripheral, which is on from the start.
    pub fn enable(&self) -> (r: Vec<Action>)
        ensures
            r@ == Seq::<Action>::empty(),
    {
        Vec::new()
    }

    /// Disables the peripheral, which stays on.
    pub fn disable(&self) -> (r: Vec<Action>)
        ensures
            r@ == Seq::<Action>::empty(),
    {
        Vec::new()
    }

    /// Initiates a remote wakeup of the host, which the driver does not support.
    pub fn remote_wakeup(&self) -> (r: Result<(), Unsupported>)
        ensures
            r == Err::<(), Unsupported>(Unsupported),
    {
        Err(Unsupported)
    }
}

/// Tests whether endpoint 0 can have this maximum packet size.
fn is_ep0_size(max_packet_size: u16) -> (r: bool)
    ensures
        r == ep0_size_supported(max_packet_size),
{
    max_packet_size == 8 || max_packet_size == 16 || max_packet_size == 32 || max_packet_size == 64
}

} // verus!
