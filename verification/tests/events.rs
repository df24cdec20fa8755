use synopsys_otg::action::{Action, Probe};
use synopsys_otg::bus::{abort_in, cancel_transfer, turnaround, Bus, PollOutcome};
use synopsys_otg::config::{Config, Features, OtgInstance, PhyType};
use synopsys_otg::registers::{
    Daintmsk, Dcfg, Dctl, Doepmsk, Doeptsiz, Dspd, EpStatus, Epctl, Eptyp, Gahbcfg, GccfgV1, GccfgV2,
    GccfgV3, Gintmsk, Gintsts, Gotgctl, Gotgint, Grstctl, Gusbcfg, Pfivl,
};
use synopsys_otg::state::State;
use synopsys_otg::table::{
    ep0_mpsiz, ep_fifo_size, ep_irq_mask, fifo_empty_mask, to_eptyp, EndpointData,
};
use synopsys_otg::types::{Direction, EndpointAddress, EndpointType, Event, Unsupported};

fn data(ep_type: EndpointType, max_packet_size: u16, fifo_size_words: u16) -> Option<EndpointData> {
    Some(EndpointData { ep_type, max_packet_size, fifo_size_words })
}

fn bus(phy_type: PhyType, features: Features, vbus_detection: bool, dma_enable: bool) -> Bus<4> {
    let mut config = Config::default();
    config.vbus_detection = vbus_detection;
    config.dma_enable = dma_enable;
    Bus {
        config,
        ep_in: [
            data(EndpointType::Control, 64, 16),
            None,
            data(EndpointType::Isochronous, 100, 25),
            None,
        ],
        ep_out: [data(EndpointType::Control, 64, 16), data(EndpointType::Bulk, 32, 8), None, None],
        instance: OtgInstance {
            fifo_depth_words: 320,
            endpoint_count: 3,
            phy_type,
            extra_rx_fifo_words: 30,
            features,
        },
        inited: false,
    }
}

const PLAIN: Features = Features { dma: false, ar8030: false };
const DMA: Features = Features { dma: true, ar8030: false };
const AR8030: Features = Features { dma: false, ar8030: true };

fn plain() -> Bus<4> {
    bus(PhyType::InternalFullSpeed, PLAIN, false, false)
}

fn irqs(rxflvlm: bool) -> Action {
    Action::WriteGintmsk(Gintmsk {
        usbrst: true,
        enumdnem: true,
        usbsuspm: true,
        wuim: true,
        iepint: true,
        oepint: true,
        rxflvlm,
        srqim: true,
        otgint: true,
    })
}

fn clear(f: fn(&mut Gintsts)) -> Action {
    let mut ints = Gintsts::none();
    f(&mut ints);
    Action::WriteGintsts(ints)
}

#[test]
fn phy_types() {
    assert!(PhyType::InternalFullSpeed.internal());
    assert!(PhyType::InternalHighSpeed.internal());
    assert!(!PhyType::ExternalFullSpeed.internal());
    assert!(!PhyType::ExternalHighSpeed.internal());
    assert!(!PhyType::InternalFullSpeed.high_speed());
    assert!(PhyType::InternalHighSpeed.high_speed());
    assert!(!PhyType::ExternalFullSpeed.high_speed());
    assert!(PhyType::ExternalHighSpeed.high_speed());
    assert_eq!(PhyType::InternalFullSpeed.to_dspd(), Dspd::FullSpeedInternal);
    assert_eq!(PhyType::InternalHighSpeed.to_dspd(), Dspd::HighSpeed);
    assert_eq!(PhyType::ExternalFullSpeed.to_dspd(), Dspd::FullSpeedExternal);
    assert_eq!(PhyType::ExternalHighSpeed.to_dspd(), Dspd::HighSpeed);
    assert_eq!(plain().phy_type(), PhyType::InternalFullSpeed);
}

#[test]
fn default_configuration() {
    let config = Config::default();
    assert!(!config.vbus_detection && !config.xcvrdly && !config.dma_enable);
}

#[test]
fn endpoint_0_sizes() {
    assert_eq!(ep0_mpsiz(8), 3);
    assert_eq!(ep0_mpsiz(16), 2);
    assert_eq!(ep0_mpsiz(32), 1);
    assert_eq!(ep0_mpsiz(64), 0);
    assert!(plain().is_configurable());
    let mut b = plain();
    b.ep_in[0] = data(EndpointType::Control, 63, 16);
    assert!(!b.is_configurable());
    let mut b = plain();
    b.ep_out[0] = data(EndpointType::Control, 0, 0);
    assert!(!b.is_configurable());
}

#[test]
fn tables() {
    let b = plain();
    assert_eq!(ep_fifo_size(&b.ep_in), 41);
    assert_eq!(ep_fifo_size(&b.ep_out), 24);
    assert_eq!(ep_fifo_size(&[]), 0);
    assert_eq!(ep_irq_mask(&b.ep_in), 0b101);
    assert_eq!(ep_irq_mask(&b.ep_out), 0b011);
    let mut all = [data(EndpointType::Bulk, 8, 16); 16];
    assert_eq!(ep_irq_mask(&all), 0xffff);
    all[15] = None;
    assert_eq!(ep_irq_mask(&all), 0x7fff);
    assert_eq!(to_eptyp(EndpointType::Control), Eptyp::Control);
    assert_eq!(to_eptyp(EndpointType::Isochronous), Eptyp::Isochronous);
    assert_eq!(to_eptyp(EndpointType::Bulk), Eptyp::Bulk);
    assert_eq!(to_eptyp(EndpointType::Interrupt), Eptyp::Interrupt);
}

#[test]
fn fifo_empty_mask_of_one_endpoint() {
    assert_eq!(fifo_empty_mask(0b0101, 1, true), 0b0111);
    assert_eq!(fifo_empty_mask(0b0111, 1, false), 0b0101);
    assert_eq!(fifo_empty_mask(0b0111, 3, false), 0b0111);
    assert_eq!(fifo_empty_mask(0, 15, true), 0x8000);
}

#[test]
fn configured_as_device() {
    let cases = [
        (PhyType::InternalFullSpeed, true),
        (PhyType::InternalHighSpeed, false),
        (PhyType::ExternalFullSpeed, false),
        (PhyType::ExternalHighSpeed, false),
    ];
    for (phy, physel) in cases {
        assert_eq!(
            bus(phy, PLAIN, false, false).configure_as_device(),
            vec![Action::WriteGusbcfg(Gusbcfg { fdmod: Some(true), physel: Some(physel), trdt: None })]
        );
    }
}

#[test]
fn core_versions() {
    assert_eq!(
        bus(PhyType::ExternalFullSpeed, PLAIN, true, false).config_v1(),
        vec![
            Action::ModifyGccfgV1(GccfgV1 { pwrdwn: Some(false), ..GccfgV1::none() }),
            Action::ModifyGccfgV1(GccfgV1 {
                pwrdwn: None,
                novbussens: Some(false),
                vbusasen: Some(false),
                vbusbsen: Some(true),
                sofouten: Some(false),
            }),
        ]
    );
    assert_eq!(
        bus(PhyType::InternalHighSpeed, PLAIN, false, false).config_v2v3(),
        vec![
            Action::ModifyGccfgV2(GccfgV2 { pwrdwn: Some(false), phyhsen: Some(true), vbden: None }),
            Action::ModifyGccfgV2(GccfgV2 { pwrdwn: None, phyhsen: None, vbden: Some(false) }),
            Action::ModifyGotgctl(Gotgctl { bvaloen: Some(true), bvaloval: Some(true) }),
        ]
    );
    assert_eq!(
        bus(PhyType::InternalHighSpeed, PLAIN, false, false).config_v5(),
        vec![Action::ModifyGccfgV3(GccfgV3 {
            vbvaloven: Some(true),
            vbvaloval: Some(true),
            vbden: Some(false),
        })]
    );
    assert_eq!(
        bus(PhyType::InternalFullSpeed, PLAIN, true, false).config_v5(),
        vec![
            Action::ModifyGotgctl(Gotgctl { bvaloen: Some(false), bvaloval: Some(false) }),
            Action::ModifyGccfgV3(GccfgV3 { vbvaloven: None, vbvaloval: None, vbden: Some(true) }),
        ]
    );
}

#[test]
fn initialization_without_dma() {
    let mut state: State<4> = State::new();
    let expected = vec![
        Action::WriteDctl(Dctl { sdis: Some(true), cginak: None }),
        Action::WriteDcfg(Dcfg {
            pfivl: Some(Pfivl::FrameInterval80),
            dspd: Some(Dspd::FullSpeedInternal),
            xcvrdly: None,
            dad: None,
        }),
        Action::WriteDiepmsk(true),
        Action::WriteDoepmsk(Doepmsk { stupm: true, xfrcm: true, epdm: true, otepdm: true }),
        irqs(true),
        Action::WriteGintstsBits(0xFFFF_FFFF),
        Action::WriteGahbcfg(Gahbcfg { gint: true, hbstlen: 0, dmaen: false }),
        Action::WriteDctl(Dctl { sdis: Some(false), cginak: None }),
    ];
    assert_eq!(plain().init(&mut state), expected);
    assert!(!state.dma_enabled);
}

#[test]
fn initialization_with_dma_and_delay() {
    let mut state: State<4> = State::new();
    let mut b = bus(PhyType::ExternalHighSpeed, DMA, false, true);
    b.config.xcvrdly = true;
    let actions = b.init(&mut state);
    assert!(state.dma_enabled);
    assert_eq!(
        actions[1],
        Action::WriteDcfg(Dcfg {
            pfivl: Some(Pfivl::FrameInterval80),
            dspd: Some(Dspd::HighSpeed),
            xcvrdly: Some(true),
            dad: None,
        })
    );
    assert_eq!(actions[4], irqs(false));
    assert_eq!(actions[6], Action::WriteGahbcfg(Gahbcfg { gint: true, hbstlen: 4, dmaen: true }));
}

#[test]
fn dma_needs_the_feature() {
    let mut state: State<4> = State::new();
    let actions = bus(PhyType::ExternalHighSpeed, PLAIN, false, true).init(&mut state);
    assert!(!state.dma_enabled);
    assert_eq!(actions[4], irqs(true));
}

#[test]
fn ar8030_resets_its_core() {
    let mut state: State<4> = State::new();
    let actions = bus(PhyType::ExternalHighSpeed, AR8030, false, false).init(&mut state);
    assert_eq!(
        actions[..4],
        [
            Action::WaitAhbIdle(200000),
            Action::ModifyGrstctl(Grstctl { csrst: Some(true), ..Grstctl::none() }),
            Action::WaitCoreReset(200000),
            Action::WriteDctl(Dctl { sdis: Some(true), cginak: None }),
        ]
    );
    assert_eq!(actions.len(), 11);
}

fn iso_in() -> Epctl {
    Epctl {
        mpsiz: Some(100),
        eptyp: Some(Eptyp::Isochronous),
        sd0pid_sevnfrm: Some(true),
        txfnum: Some(2),
        snak: Some(true),
        ..Epctl::none()
    }
}

#[test]
fn endpoints_are_configured_for_fifo() {
    let state: State<4> = State::new();
    let expected = vec![
        Action::EnterCritical,
        Action::WriteDiepctl(0, Epctl { mpsiz: Some(0), ..Epctl::none() }),
        Action::ExitCritical,
        Action::EnterCritical,
        Action::WriteDiepctl(2, iso_in()),
        Action::ExitCritical,
        Action::EnterCritical,
        Action::WriteDoepctl(0, Epctl { mpsiz: Some(0), usbaep: Some(true), ..Epctl::none() }),
        Action::WriteDoeptsiz(
            0,
            Doeptsiz { xfrsiz: Some(64), rxdpid_stupcnt: Some(3), pktcnt: None },
        ),
        Action::ModifyDoepctl(0, Epctl { cnak: Some(true), epena: Some(true), ..Epctl::none() }),
        Action::ExitCritical,
        Action::EnterCritical,
        Action::WriteDoepctl(
            1,
            Epctl {
                mpsiz: Some(32),
                eptyp: Some(Eptyp::Bulk),
                sd0pid_sevnfrm: Some(true),
                ..Epctl::none()
            },
        ),
        Action::ModifyDoeptsiz(
            1,
            Doeptsiz { xfrsiz: Some(32), rxdpid_stupcnt: None, pktcnt: Some(1) },
        ),
        Action::ExitCritical,
        Action::ModifyDaintmsk(Daintmsk { iepm: Some(0b101), oepm: Some(0b011) }),
    ];
    assert_eq!(plain().configure_endpoints(&state), expected);
}

#[test]
fn endpoint_0_is_configured_for_dma() {
    let mut state: State<4> = State::new();
    state.setup_dma_buf = 0x2000_1000;
    let actions = bus(PhyType::ExternalHighSpeed, DMA, false, true).configure_endpoints(&state);
    assert_eq!(
        actions[8..11],
        [
            Action::WriteDoeptsiz(
                0,
                Doeptsiz { xfrsiz: Some(24), rxdpid_stupcnt: Some(3), pktcnt: Some(1) },
            ),
            Action::WriteDoepdma(0, 0x2000_1000),
            Action::ModifyDoepctl(0, Epctl { cnak: Some(true), epena: Some(true), ..Epctl::none() }),
        ]
    );
}

#[test]
fn ar8030_activates_endpoint_0() {
    let state: State<4> = State::new();
    let actions = bus(PhyType::ExternalHighSpeed, AR8030, false, false).configure_endpoints(&state);
    assert_eq!(
        actions[1],
        Action::WriteDiepctl(0, Epctl { mpsiz: Some(0), usbaep: Some(true), ..Epctl::none() })
    );
}

#[test]
fn stalling() {
    let b = plain();
    let out1 = EndpointAddress { byte: 0x01 };
    let in2 = EndpointAddress { byte: 0x82 };
    assert_eq!(
        b.endpoint_set_stalled(out1, true),
        vec![
            Action::EnterCritical,
            Action::ModifyDoepctl(1, Epctl { stall: Some(true), ..Epctl::none() }),
            Action::ExitCritical,
            Action::WakeOut(1),
        ]
    );
    assert_eq!(
        b.endpoint_set_stalled(in2, false),
        vec![
            Action::EnterCritical,
            Action::ModifyDiepctl(2, Epctl { stall: Some(false), ..Epctl::none() }),
            Action::ExitCritical,
            Action::WakeIn(2),
        ]
    );
    let stalled = EpStatus { usbaep: true, epena: false, stall: true };
    let free = EpStatus { usbaep: true, epena: false, stall: false };
    assert!(b.endpoint_is_stalled(out1, free, stalled));
    assert!(!b.endpoint_is_stalled(out1, stalled, free));
    assert!(b.endpoint_is_stalled(in2, stalled, free));
    assert!(!b.endpoint_is_stalled(in2, free, stalled));
}

fn disable_in(i: usize) -> Vec<Action> {
    vec![
        Action::EnterCritical,
        Action::Probe(Probe::CancelTransfer(Direction::In, i)),
        Action::ModifyDiepctl(
            i,
            Epctl { usbaep: Some(false), cnak: Some(false), ..Epctl::none() },
        ),
        Action::ExitCritical,
        Action::WakeIn(i),
    ]
}

fn disable_out(i: usize) -> Vec<Action> {
    vec![
        Action::EnterCritical,
        Action::Probe(Probe::CancelTransfer(Direction::Out, i)),
        Action::ModifyDoepctl(i, Epctl { usbaep: Some(false), ..Epctl::none() }),
        Action::WriteGrstctl(Grstctl {
            txfflsh: Some(true),
            txfnum: Some(i as u8),
            ..Grstctl::none()
        }),
        Action::WaitTxFlush,
        Action::ExitCritical,
        Action::WakeOut(i),
    ]
}

#[test]
fn enabling_and_disabling() {
    let b = plain();
    assert_eq!(
        b.endpoint_set_enabled(EndpointAddress { byte: 0x82 }, true),
        vec![
            Action::EnterCritical,
            Action::ModifyDiepctl(
                2,
                Epctl { usbaep: Some(true), cnak: Some(true), ..Epctl::none() },
            ),
            Action::ExitCritical,
            Action::WakeIn(2),
        ]
    );
    assert_eq!(b.endpoint_set_enabled(EndpointAddress { byte: 0x82 }, false), disable_in(2));
    assert_eq!(b.endpoint_set_enabled(EndpointAddress { byte: 0x01 }, false), disable_out(1));
    assert_eq!(b.endpoint_set_enabled(EndpointAddress { byte: 0x01 }, true).len(), 6);
    let mut all = Vec::new();
    for i in 0..3usize {
        all.extend(disable_in(i));
        all.extend(disable_out(i));
    }
    assert_eq!(b.disable_all_endpoints(), all);
}

#[test]
fn cancelling_and_aborting() {
    let stop = Epctl { snak: Some(true), epdis: Some(true), ..Epctl::none() };
    assert_eq!(cancel_transfer(Direction::In, 3, true), vec![Action::ModifyDiepctl(3, stop)]);
    assert_eq!(cancel_transfer(Direction::Out, 3, true), vec![Action::ModifyDoepctl(3, stop)]);
    assert_eq!(cancel_transfer(Direction::Out, 3, false), vec![]);
    assert_eq!(
        abort_in(1, true),
        vec![Action::ModifyDiepctl(1, stop), Action::WaitInDisabled(1, 1000)]
    );
    assert_eq!(abort_in(1, false), vec![]);
    assert_eq!(
        turnaround(6),
        vec![Action::ModifyGusbcfg(Gusbcfg { fdmod: None, physel: None, trdt: Some(6) })]
    );
}

#[test]
fn first_poll_initializes() {
    let mut state: State<4> = State::new();
    let mut b = plain();
    let step = b.poll(&mut state);
    assert_eq!(step.outcome, PollOutcome::Ready(Event::PowerDetected));
    assert_eq!(step.actions.len(), 8);
    let step = b.poll(&mut state);
    assert_eq!(step.outcome, PollOutcome::ReadGintsts);
    assert_eq!(step.actions, vec![]);
    let mut b = bus(PhyType::InternalFullSpeed, PLAIN, true, false);
    let step = b.poll(&mut state);
    assert_eq!(step.outcome, PollOutcome::ReadGintsts);
    assert_eq!(step.actions.len(), 8);
}

#[test]
fn nothing_pending() {
    let state: State<4> = State::new();
    let step = plain().poll_interrupts(&state, Gintsts::none());
    assert_eq!(step.outcome, PollOutcome::Pending);
    assert_eq!(step.actions, vec![]);
}

#[test]
fn session_request() {
    let state: State<4> = State::new();
    let mut ints = Gintsts::none();
    ints.srqint = true;
    ints.usbsusp = true;
    let step = bus(PhyType::InternalFullSpeed, PLAIN, true, false).poll_interrupts(&state, ints);
    assert_eq!(step.outcome, PollOutcome::Ready(Event::PowerDetected));
    assert_eq!(step.actions, vec![clear(|i| i.srqint = true), irqs(true)]);
    let step = plain().poll_interrupts(&state, ints);
    assert_eq!(step.outcome, PollOutcome::Ready(Event::Suspend));
    assert_eq!(
        step.actions,
        vec![
            clear(|i| i.srqint = true),
            irqs(true),
            clear(|i| i.usbsusp = true),
            irqs(true),
        ]
    );
}

#[test]
fn session_end() {
    let state: State<4> = State::new();
    let mut ints = Gintsts::none();
    ints.otgint = true;
    ints.wkupint = true;
    let b = bus(PhyType::InternalFullSpeed, PLAIN, true, false);
    let step = b.poll_interrupts(&state, ints);
    assert_eq!(step.outcome, PollOutcome::ReadGotgint);
    assert_eq!(step.actions, vec![]);
    let step = b.poll_otg(&state, ints, Gotgint { bits: 4, sedet: true });
    assert_eq!(step.outcome, PollOutcome::Ready(Event::PowerRemoved));
    let mut expected = vec![Action::WriteGotgint(4), irqs(true)];
    expected.extend(b.disable_all_endpoints());
    assert_eq!(step.actions, expected);
    let step = b.poll_otg(&state, ints, Gotgint { bits: 8, sedet: false });
    assert_eq!(step.outcome, PollOutcome::Ready(Event::Resume));
    assert_eq!(
        step.actions,
        vec![Action::WriteGotgint(8), irqs(true), clear(|i| i.wkupint = true), irqs(true)]
    );
    let step = plain().poll_otg(&state, ints, Gotgint { bits: 4, sedet: true });
    assert_eq!(step.outcome, PollOutcome::Ready(Event::Resume));
}

#[test]
fn bus_reset() {
    let state: State<4> = State::new();
    let mut ints = Gintsts::none();
    ints.usbrst = true;
    let b = plain();
    let step = b.poll_interrupts(&state, ints);
    assert_eq!(step.outcome, PollOutcome::Pending);
    let mut expected = Vec::new();
    for i in 0..3usize {
        expected.push(Action::Probe(Probe::AbortIn(i)));
        expected.push(Action::AckDiepint(i));
    }
    for i in 0..3usize {
        expected.push(Action::WakeIn(i));
        expected.push(Action::WakeOut(i));
    }
    expected.extend(b.init_fifo());
    expected.extend(b.configure_endpoints(&state));
    expected.push(Action::EnterCritical);
    expected.push(Action::ModifyDcfg(Dcfg { dad: Some(0), ..Dcfg::none() }));
    expected.push(Action::ExitCritical);
    expected.push(clear(|i| i.usbrst = true));
    expected.push(irqs(true));
    assert_eq!(step.actions, expected);
    // a reset and its enumeration may come together
    ints.enumdne = true;
    let step = b.poll_interrupts(&state, ints);
    assert_eq!(step.outcome, PollOutcome::Ready(Event::Reset));
    expected.push(Action::Probe(Probe::EnumSpeed));
    expected.push(Action::ModifyDctl(Dctl { sdis: None, cginak: Some(true) }));
    expected.push(clear(|i| i.enumdne = true));
    expected.push(irqs(true));
    assert_eq!(step.actions, expected);
}

#[test]
fn unsupported_operations() {
    let b = plain();
    assert_eq!(b.enable(), vec![]);
    assert_eq!(b.disable(), vec![]);
    assert_eq!(b.remote_wakeup(), Err(Unsupported));
}

#[test]
fn critical_sections_are_left() {
    let bus = bus(PhyType::InternalFullSpeed, Features { dma: true, ar8030: true }, true, true);
    let mut ints = Gintsts::none();
    ints.usbrst = true;
    ints.enumdne = true;
    let state: State<4> = State::new();
    let mut inside = false;
    let mut sections = 0;
    for action in bus.poll_interrupts(&state, ints).actions.into_iter().chain(bus.disable_all_endpoints()) {
        match action {
            Action::EnterCritical => {
                assert!(!inside);
                inside = true;
                sections += 1;
            }
            Action::ExitCritical => {
                assert!(inside);
                inside = false;
            }
            _ => {}
        }
    }
    assert!(!inside);
    assert!(sections > 8);
}

#[test]
fn vbus_events_come_before_a_reset() {
    // a size of endpoint 0 that the core does not support matters to a reset only
    let mut bus = bus(PhyType::InternalFullSpeed, PLAIN, true, false);
    bus.ep_in[0] = data(EndpointType::Control, 12, 16);
    assert!(!bus.is_configurable());
    let state: State<4> = State::new();
    let mut ints = Gintsts::none();
    ints.usbrst = true;
    ints.srqint = true;
    let step = bus.poll_interrupts(&state, ints);
    assert_eq!(step.outcome, PollOutcome::Ready(Event::PowerDetected));
    assert_eq!(step.actions, vec![clear(|i| i.srqint = true), irqs(true)]);
    ints.srqint = false;
    ints.otgint = true;
    assert_eq!(bus.poll_interrupts(&state, ints).outcome, PollOutcome::ReadGotgint);
    let step = bus.poll_otg(&state, ints, Gotgint { bits: 4, sedet: true });
    assert_eq!(step.outcome, PollOutcome::Ready(Event::PowerRemoved));
    assert_eq!(step.actions[0], Action::WriteGotgint(4));
}
