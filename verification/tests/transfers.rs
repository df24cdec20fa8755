use core::marker::PhantomData;
use synopsys_otg::action::{Action, Probe};
use synopsys_otg::control::{ControlPipe, DataInNext};
use synopsys_otg::dispatch::{follow, is_answerable, Reading};
use synopsys_otg::endpoint::{
    frame_parity, Endpoint, In, Out, ReadPoll, WritePoll, WriteStage,
};
use synopsys_otg::fifo::{
    packet_word, packet_words, word_from_bytes, word_to_bytes, ByteOrder,
};
use synopsys_otg::interrupt::{
    in_flags, in_mask, is_rx_valid, on_interrupt, out_flags, out_mask, out_words, remaining,
    rx_level, rx_status, setup_buffer, setup_words, tx_pending,
};
use synopsys_otg::config::Features;
use synopsys_otg::program::Program;
use synopsys_otg::registers::{
    Dcfg, Diepint, Dieptsiz, Doepint, Doeptsiz, EpStatus, Epctl, Gintmsk, Gintsts, Grstctl, Pktstsd,
    RxStatus,
};
use synopsys_otg::state::{BufferSlot, State, EP_OUT_BUFFER_EMPTY};
use synopsys_otg::types::{
    Direction, EndpointAddress, EndpointError, EndpointInfo, EndpointType,
};

const PLAIN: Features = Features { dma: false, ar8030: false };
const DMA: Features = Features { dma: true, ar8030: false };
const AR8030: Features = Features { dma: false, ar8030: true };

const ACTIVE: EpStatus = EpStatus { usbaep: true, epena: false, stall: false };
const BUSY: EpStatus = EpStatus { usbaep: true, epena: true, stall: false };
const OFF: EpStatus = EpStatus { usbaep: false, epena: false, stall: false };
const RESET: EpStatus = EpStatus { usbaep: false, epena: true, stall: false };

fn info(byte: u8, ep_type: EndpointType, max_packet_size: u16) -> EndpointInfo {
    EndpointInfo { addr: EndpointAddress { byte }, ep_type, max_packet_size, interval_ms: 0 }
}

fn ep_out(number: u8, ep_type: EndpointType, dma_enable: bool) -> Endpoint<Out> {
    Endpoint { phantom: PhantomData, info: info(number, ep_type, 16), dma_enable }
}

fn ep_in(number: u8, ep_type: EndpointType, dma_enable: bool) -> Endpoint<In> {
    Endpoint { phantom: PhantomData, info: info(0x80 + number, ep_type, 16), dma_enable }
}

fn state() -> State<4> {
    let mut s: State<4> = State::new();
    for i in 0..4usize {
        s.ep_states[i].out_buffer = BufferSlot { offset: 16 * i, len: 16, addr: 0x2000_0000 + 16 * i };
    }
    s.byte_order = ByteOrder::Little;
    s.setup_dma_buf = 0x2000_2000;
    s
}

#[test]
fn state_knows_the_byte_order_of_the_machine() {
    let s: State<2> = State::new();
    let native = if 0x0102_0304u32.to_ne_bytes()[0] == 4 { ByteOrder::Little } else { ByteOrder::Big };
    assert_eq!(s.byte_order, native);
    assert_eq!(word_to_bytes(s.byte_order, 0x0102_0304), 0x0102_0304u32.to_ne_bytes());
    assert_eq!(word_from_bytes(s.byte_order, [9, 8, 7, 6]), u32::from_ne_bytes([9, 8, 7, 6]));
    assert_eq!(ByteOrder::of_probe(1), ByteOrder::Little);
    assert_eq!(ByteOrder::of_probe(0x0100_0000), ByteOrder::Big);
}

#[test]
fn new_state_is_empty() {
    let s: State<3> = State::new();
    for ep in s.ep_states {
        assert_eq!(ep.out_size, EP_OUT_BUFFER_EMPTY);
        assert_eq!(ep.out_xfer_size, 0);
        assert_eq!(ep.out_buffer, BufferSlot { offset: 0, len: 0, addr: 0 });
    }
    assert!(!s.cp_state.setup_ready);
    assert!(!s.dma_enabled);
    assert_eq!(state().setup_dma_buf_addr(), 0x2000_2000);
}

#[test]
fn words_and_bytes() {
    assert_eq!(word_to_bytes(ByteOrder::Little, 0x1122_3344), [0x44, 0x33, 0x22, 0x11]);
    assert_eq!(word_to_bytes(ByteOrder::Big, 0x1122_3344), [0x11, 0x22, 0x33, 0x44]);
    assert_eq!(word_from_bytes(ByteOrder::Little, [1, 2, 3, 4]), 0x0403_0201);
    assert_eq!(word_from_bytes(ByteOrder::Big, [1, 2, 3, 4]), 0x0102_0304);
    assert_eq!(packet_words(0), 0);
    assert_eq!(packet_words(1), 1);
    assert_eq!(packet_words(4), 1);
    assert_eq!(packet_words(5), 2);
    assert_eq!(packet_words(usize::MAX), usize::MAX / 4 + 1);
    let data = [1u8, 2, 3, 4, 5, 6];
    assert_eq!(packet_word(ByteOrder::Little, &data, 0), 0x0403_0201);
    assert_eq!(packet_word(ByteOrder::Little, &data, 1), 0x0000_0605);
    assert_eq!(packet_word(ByteOrder::Big, &data, 1), 0x0506_0000);
}

#[test]
fn interrupts_are_sorted_out() {
    let s = state();
    let none = Gintsts::none();
    assert_eq!(on_interrupt(none, PLAIN, &s), vec![Action::Probe(Probe::RxLevel)]);
    // without DMA in use, the receive FIFO is drained in a build with DMA too
    assert_eq!(on_interrupt(none, DMA, &s), vec![Action::Probe(Probe::RxLevel)]);
    let mut ints = none;
    ints.usbrst = true;
    ints.iepint = true;
    ints.oepint = true;
    let mask = |rxflvlm: bool| {
        Action::WriteGintmsk(Gintmsk { iepint: true, oepint: true, rxflvlm, ..Gintmsk::none() })
    };
    assert_eq!(
        on_interrupt(ints, PLAIN, &s),
        vec![
            mask(true),
            Action::WakeBus,
            Action::Probe(Probe::RxLevel),
            Action::Probe(Probe::InMask),
            Action::Probe(Probe::OutMask),
        ]
    );
    let mut s = state();
    s.dma_enabled = true;
    assert_eq!(on_interrupt(none, DMA, &s), vec![]);
    assert_eq!(on_interrupt(none, PLAIN, &s), vec![Action::Probe(Probe::RxLevel)]);
    assert_eq!(
        on_interrupt(ints, DMA, &s),
        vec![
            mask(false),
            Action::WakeBus,
            Action::Probe(Probe::InMask),
            Action::Probe(Probe::OutMask),
        ]
    );
    let flags: [fn(&mut Gintsts); 6] = [
        |i| i.wkupint = true,
        |i| i.usbsusp = true,
        |i| i.usbrst = true,
        |i| i.enumdne = true,
        |i| i.otgint = true,
        |i| i.srqint = true,
    ];
    for flag in flags {
        let mut ints = none;
        flag(&mut ints);
        assert_eq!(on_interrupt(ints, DMA, &s), vec![mask(false), Action::WakeBus]);
    }
}

fn rx(epnum: u8, bcnt: u16, pktstsd: Pktstsd) -> RxStatus {
    RxStatus { epnum, bcnt, pktstsd }
}

#[test]
fn receive_queue_entries() {
    assert_eq!(rx_level(false), vec![]);
    assert_eq!(rx_level(true), vec![Action::Probe(Probe::RxStatus), Action::Probe(Probe::RxLevel)]);
    assert!(is_rx_valid(rx(0, 8, Pktstsd::SetupDataRx), 4));
    assert!(!is_rx_valid(rx(0, 7, Pktstsd::SetupDataRx), 4));
    assert!(!is_rx_valid(rx(1, 8, Pktstsd::SetupDataRx), 4));
    assert!(is_rx_valid(rx(3, 7, Pktstsd::OutDataRx), 4));
    assert!(!is_rx_valid(rx(4, 7, Pktstsd::OutDataRx), 4));
    let mut s = state();
    assert_eq!(
        rx_status(&mut s, PLAIN, rx(0, 8, Pktstsd::SetupDataRx), 4),
        vec![Action::Probe(Probe::TxPending(0)), Action::Probe(Probe::SetupWords)]
    );
    assert_eq!(
        rx_status(&mut s, PLAIN, rx(2, 9, Pktstsd::OutDataRx), 4),
        vec![Action::Probe(Probe::OutWords { ep: 2, len: 9 })]
    );
    assert_eq!(rx_status(&mut s, PLAIN, rx(2, 0, Pktstsd::OutDataDone), 4), vec![]);
    assert_eq!(rx_status(&mut s, PLAIN, rx(0, 0, Pktstsd::SetupDataDone), 4), vec![]);
    assert_eq!(rx_status(&mut s, AR8030, rx(0, 0, Pktstsd::Other(9)), 4), vec![]);
    assert!(!s.cp_state.setup_ready);
    assert_eq!(rx_status(&mut s, AR8030, rx(0, 0, Pktstsd::SetupDataDone), 4), vec![]);
    assert!(s.cp_state.setup_ready);
    assert_eq!(tx_pending(0, 0), vec![]);
    assert_eq!(
        tx_pending(0, 2),
        vec![
            Action::ModifyGrstctl(Grstctl {
                txfnum: Some(0),
                txfflsh: Some(true),
                ..Grstctl::none()
            }),
            Action::WaitTxFlush,
        ]
    );
}

#[test]
fn packet_is_received_and_read() {
    let mut s = state();
    let mut memory = [0xeeu8; 64];
    let ep = ep_out(1, EndpointType::Bulk, false);
    assert_eq!(ep.read(&mut s), vec![]);
    assert_eq!(ep.read_poll(&s, ACTIVE, 8).poll, ReadPoll::Pending);
    let words = [0x0403_0201, 0xffff_0605];
    assert_eq!(out_words(&mut s, &mut memory, 1, 6, &words), vec![Action::WakeOut(1)]);
    assert_eq!(s.ep_states[1].out_size, 6);
    assert_eq!(memory[15..23], [0xee, 1, 2, 3, 4, 5, 6, 0xee]);
    // a second packet is dropped while the first waits
    assert_eq!(out_words(&mut s, &mut memory, 1, 4, &[0xaaaa_aaaa]), vec![]);
    assert_eq!(memory[15..23], [0xee, 1, 2, 3, 4, 5, 6, 0xee]);
    assert_eq!(ep.read_poll(&s, OFF, 8).poll, ReadPoll::Failed(EndpointError::Disabled));
    assert_eq!(ep.read_poll(&s, ACTIVE, 5).poll, ReadPoll::Failed(EndpointError::BufferOverflow));
    let step = ep.read_poll(&s, ACTIVE, 8);
    assert_eq!(step.poll, ReadPoll::Packet(6));
    assert_eq!(step.actions, vec![]);
    let mut buf = [0u8; 8];
    let size = Doeptsiz { xfrsiz: Some(16), pktcnt: Some(1), rxdpid_stupcnt: None };
    assert_eq!(
        ep.read_packet(&mut s, &memory, &mut buf),
        vec![
            Action::EnterCritical,
            Action::ModifyDoeptsiz(1, size),
            Action::ModifyDoepctl(1, Epctl { cnak: Some(true), ..Epctl::none() }),
            Action::ExitCritical,
        ]
    );
    assert_eq!(buf, [1, 2, 3, 4, 5, 6, 0, 0]);
    assert_eq!(s.ep_states[1].out_size, EP_OUT_BUFFER_EMPTY);
    assert_eq!(ep.read_poll(&s, ACTIVE, 8).poll, ReadPoll::Pending);
}

#[test]
fn empty_packet_is_received() {
    let mut s = state();
    let mut memory = [0xeeu8; 64];
    let ep = ep_out(0, EndpointType::Control, false);
    assert_eq!(out_words(&mut s, &mut memory, 0, 0, &[]), vec![Action::WakeOut(0)]);
    assert_eq!(memory, [0xeeu8; 64]);
    assert_eq!(ep.read_poll(&s, ACTIVE, 0).poll, ReadPoll::Packet(0));
}

#[test]
fn packets_do_not_disturb_each_other() {
    let mut s = state();
    s.byte_order = ByteOrder::Big;
    let mut memory = [0u8; 64];
    out_words(&mut s, &mut memory, 2, 16, &[0x0102_0304, 0x0506_0708, 0x090a_0b0c, 0x0d0e_0f10]);
    out_words(&mut s, &mut memory, 1, 3, &[0xa1a2_a3a4]);
    out_words(&mut s, &mut memory, 3, 1, &[0xb1b2_b3b4]);
    let mut buf = [0u8; 16];
    ep_out(2, EndpointType::Bulk, false).read_packet(&mut s, &memory, &mut buf);
    assert_eq!(buf, [1, 2, 3, 4, 5, 6, 7, 8, 9, 10, 11, 12, 13, 14, 15, 16]);
    ep_out(1, EndpointType::Bulk, false).read_packet(&mut s, &memory, &mut buf);
    assert_eq!(buf[..4], [0xa1, 0xa2, 0xa3, 4]);
}

#[test]
fn first_packet_is_kept_until_it_is_read() {
    let mut s = state();
    let mut memory = [0u8; 64];
    let ep = ep_out(1, EndpointType::Bulk, false);
    let mut buf = [0u8; 4];
    assert_eq!(out_words(&mut s, &mut memory, 2, 4, &[0x1111_1111]), vec![Action::WakeOut(2)]);
    assert_eq!(out_words(&mut s, &mut memory, 1, 4, &[0x2222_2222]), vec![Action::WakeOut(1)]);
    assert_eq!(out_words(&mut s, &mut memory, 1, 4, &[0x3333_3333]), vec![]);
    assert_eq!(out_words(&mut s, &mut memory, 2, 4, &[0x4444_4444]), vec![]);
    ep.read_packet(&mut s, &memory, &mut buf);
    assert_eq!(buf, [0x22; 4]);
    assert_eq!(out_words(&mut s, &mut memory, 1, 4, &[0x5555_5555]), vec![Action::WakeOut(1)]);
    ep.read_packet(&mut s, &memory, &mut buf);
    assert_eq!(buf, [0x55; 4]);
    ep_out(2, EndpointType::Bulk, false).read_packet(&mut s, &memory, &mut buf);
    assert_eq!(buf, [0x11; 4]);
}

#[test]
fn isochronous_reception_keeps_parity() {
    let mut s = state();
    let mut memory = [0u8; 64];
    out_words(&mut s, &mut memory, 1, 1, &[7]);
    let mut buf = [0u8; 16];
    let actions = ep_out(1, EndpointType::Isochronous, false).read_packet(&mut s, &memory, &mut buf);
    assert_eq!(actions.len(), 5);
    assert_eq!(actions[2], Action::Probe(Probe::FrameNumber(Direction::Out, 1)));
    let even = Epctl { sd0pid_sevnfrm: Some(true), ..Epctl::none() };
    let odd = Epctl { sd1pid_soddfrm: Some(true), ..Epctl::none() };
    assert_eq!(frame_parity(Direction::Out, 1, 3), vec![Action::ModifyDoepctl(1, even)]);
    assert_eq!(frame_parity(Direction::Out, 1, 4), vec![Action::ModifyDoepctl(1, odd)]);
    assert_eq!(frame_parity(Direction::In, 2, 0xffff), vec![Action::ModifyDiepctl(2, even)]);
    assert_eq!(frame_parity(Direction::In, 2, 0), vec![Action::ModifyDiepctl(2, odd)]);
}

#[test]
fn packet_is_received_by_dma() {
    let mut s = state();
    s.dma_enabled = true;
    let mut memory = [0u8; 64];
    let ep = ep_out(2, EndpointType::Bulk, true);
    let size = Doeptsiz { xfrsiz: Some(16), pktcnt: Some(1), rxdpid_stupcnt: None };
    let arm = vec![
        Action::EnterCritical,
        Action::ModifyDoeptsiz(2, size),
        Action::WriteDoepdma(2, 0x2000_0020),
        Action::ModifyDoepctl(2, Epctl { cnak: Some(true), epena: Some(true), ..Epctl::none() }),
        Action::ExitCritical,
    ];
    assert_eq!(ep.read(&mut s), arm);
    assert_eq!(s.ep_states[2].out_xfer_size, 16);
    let done = Doepint { bits: 1, stup: false, xfrc: true };
    assert_eq!(
        out_flags(&mut s, DMA, 2, done),
        vec![Action::WriteDoepint(2, 1), Action::Probe(Probe::Remaining(2))]
    );
    memory[32..37].copy_from_slice(&[1, 2, 3, 4, 5]);
    assert_eq!(remaining(&mut s, 2, 11), vec![Action::WakeOut(2)]);
    assert_eq!(s.ep_states[2].out_size, 5);
    // a packet waits, so nothing is set up
    assert_eq!(ep.read(&mut s), vec![]);
    let step = ep.read_poll(&s, ACTIVE, 64);
    assert_eq!(step.poll, ReadPoll::Packet(5));
    assert_eq!(step.actions, vec![Action::InvalidateCache { addr: 0x2000_0020, len: 5 }]);
    let mut buf = [9u8; 6];
    assert_eq!(ep.read_packet(&mut s, &memory, &mut buf), arm);
    assert_eq!(buf, [1, 2, 3, 4, 5, 9]);
    // more left than asked for
    assert_eq!(remaining(&mut s, 2, 17), vec![Action::WakeOut(2)]);
    assert_eq!(s.ep_states[2].out_size, 0);
    assert_eq!(ep.read_poll(&s, ACTIVE, 0).actions, vec![]);
}

#[test]
fn pending_endpoints_in_order() {
    assert_eq!(in_mask(0), vec![]);
    assert_eq!(
        in_mask(0b1000_0000_0000_0101),
        vec![
            Action::Probe(Probe::InFlags(0)),
            Action::Probe(Probe::InFlags(2)),
            Action::Probe(Probe::InFlags(15)),
        ]
    );
    assert_eq!(out_mask(0b10), vec![Action::Probe(Probe::OutFlags(1))]);
    assert_eq!(out_mask(0xffff).len(), 16);
}

#[test]
fn in_endpoint_is_served() {
    assert_eq!(
        in_flags(3, Diepint { bits: 0x11, txfe: false }),
        vec![Action::WriteDiepint(3, 0x11), Action::WakeIn(3)]
    );
    assert_eq!(
        in_flags(3, Diepint { bits: 0x91, txfe: true }),
        vec![
            Action::WriteDiepint(3, 0x91),
            Action::EnterCritical,
            Action::ModifyDiepempmsk(3, false),
            Action::ExitCritical,
            Action::WakeIn(3),
        ]
    );
}

#[test]
fn out_endpoint_is_served_without_dma() {
    let mut s = state();
    assert_eq!(
        out_flags(&mut s, PLAIN, 1, Doepint { bits: 1, stup: false, xfrc: true }),
        vec![Action::WriteDoepint(1, 1), Action::WakeOut(1)]
    );
    assert!(!s.cp_state.setup_ready);
    assert_eq!(
        out_flags(&mut s, PLAIN, 0, Doepint { bits: 8, stup: true, xfrc: false }),
        vec![Action::WriteDoepint(0, 8), Action::WakeOut(0), Action::WakeOut(0)]
    );
    assert!(s.cp_state.setup_ready);
}

#[test]
fn out_endpoint_is_served_with_dma() {
    let mut s = state();
    s.dma_enabled = true;
    assert_eq!(
        out_flags(&mut s, DMA, 1, Doepint { bits: 2, stup: false, xfrc: false }),
        vec![Action::WriteDoepint(1, 2), Action::WakeOut(1)]
    );
    // completion of the SETUP stage is not data
    assert_eq!(
        out_flags(&mut s, DMA, 0, Doepint { bits: 9, stup: true, xfrc: true }),
        vec![
            Action::WriteDoepint(0, 9),
            Action::InvalidateCache { addr: 0x2000_2000, len: 64 },
            Action::Probe(Probe::SetupBuffer),
        ]
    );
    assert!(!s.cp_state.setup_ready);
    let cnak_epena = Epctl { cnak: Some(true), epena: Some(true), ..Epctl::none() };
    assert_eq!(
        setup_buffer(&mut s, [1, 2, 3, 4, 5, 6, 7, 8]),
        vec![
            Action::WriteDoeptsiz(
                0,
                Doeptsiz { rxdpid_stupcnt: Some(3), pktcnt: Some(1), xfrsiz: Some(24) },
            ),
            Action::WriteDoepdma(0, 0x2000_2000),
            Action::ModifyDoepctl(0, cnak_epena),
            Action::WakeOut(0),
        ]
    );
    assert!(s.cp_state.setup_ready);
    assert_eq!(s.cp_state.setup_data, [0x0403_0201, 0x0807_0605]);
    assert_eq!(
        out_flags(&mut s, DMA, 1, Doepint { bits: 8, stup: true, xfrc: false }),
        vec![Action::WriteDoepint(1, 8), Action::WakeOut(0)]
    );
}

fn pipe(dma_enable: bool) -> ControlPipe {
    ControlPipe {
        max_packet_size: 16,
        ep_in: ep_in(0, EndpointType::Control, dma_enable),
        ep_out: ep_out(0, EndpointType::Control, dma_enable),
    }
}

#[test]
fn setup_packet_reaches_the_pipe() {
    let mut s = state();
    let p = pipe(false);
    assert_eq!(p.max_packet_size(), 16);
    setup_words(&mut s, 0x0403_0201, 0x0807_0605);
    assert!(p.setup(&mut s).packet.is_none());
    out_flags(&mut s, PLAIN, 0, Doepint { bits: 8, stup: true, xfrc: false });
    assert_eq!(p.setup_prepare(&s, false), vec![]);
    let step = p.setup(&mut s);
    assert_eq!(step.packet, Some([1, 2, 3, 4, 5, 6, 7, 8]));
    assert_eq!(
        step.actions,
        vec![
            Action::ModifyDoeptsiz(
                0,
                Doeptsiz { rxdpid_stupcnt: Some(3), pktcnt: None, xfrsiz: None },
            ),
            Action::ModifyDoepctl(0, Epctl { cnak: Some(true), ..Epctl::none() }),
        ]
    );
    // only once
    let step = p.setup(&mut s);
    assert!(step.packet.is_none());
    assert_eq!(step.actions, vec![]);
}

#[test]
fn setup_packet_reaches_the_pipe_by_dma() {
    let mut s = state();
    let p = pipe(true);
    assert_eq!(p.setup_prepare(&s, true), vec![]);
    assert_eq!(p.setup_prepare(&s, false).len(), 3);
    setup_buffer(&mut s, [1, 2, 3, 4, 5, 6, 7, 8]);
    let step = p.setup(&mut s);
    assert_eq!(step.packet, Some([1, 2, 3, 4, 5, 6, 7, 8]));
    assert_eq!(step.actions, vec![]);
}

#[test]
fn control_requests() {
    let p = pipe(false);
    assert_eq!(p.data_in(Ok(()), false), DataInNext::Done);
    assert_eq!(p.data_in(Ok(()), true), DataInNext::AwaitStatus);
    assert_eq!(
        p.data_in(Err(EndpointError::Disabled), true),
        DataInNext::Failed(EndpointError::Disabled)
    );
    assert_eq!(p.data_in_status(Ok(0)), Ok(()));
    assert_eq!(
        p.data_in_status(Err(EndpointError::BufferOverflow)),
        Err(EndpointError::BufferOverflow)
    );
    let stall = Epctl { stall: Some(true), ..Epctl::none() };
    assert_eq!(p.reject(), vec![Action::ModifyDiepctl(0, stall), Action::ModifyDoepctl(0, stall)]);
    assert_eq!(
        p.accept_set_address(5),
        vec![
            Action::EnterCritical,
            Action::ModifyDcfg(Dcfg { dad: Some(5), ..Dcfg::none() }),
            Action::ExitCritical,
        ]
    );
}

#[test]
fn sending_through_the_fifo() {
    let ep = ep_in(1, EndpointType::Bulk, false);
    assert_eq!(ep.write(17), Err(EndpointError::BufferOverflow));
    assert_eq!(ep.write(16), Ok(WriteStage::Previous));
    assert_eq!(ep.write_previous(6, OFF), WritePoll::Failed(EndpointError::Disabled));
    assert_eq!(ep.write_previous(6, BUSY), WritePoll::Pending);
    assert_eq!(ep.write_previous(6, ACTIVE), WritePoll::Next(WriteStage::Space));
    assert_eq!(ep.write_previous(0, ACTIVE), WritePoll::Next(WriteStage::Transfer));
    let step = ep.write_space(6, 1);
    assert_eq!(step.poll, WritePoll::Pending);
    assert_eq!(
        step.actions,
        vec![Action::EnterCritical, Action::ModifyDiepempmsk(1, true), Action::ExitCritical]
    );
    let step = ep.write_space(6, 2);
    assert_eq!(step.poll, WritePoll::Next(WriteStage::Transfer));
    assert_eq!(step.actions, vec![]);
    let step = ep.write_transfer(ByteOrder::Little, &[1, 2, 3, 4, 5, 6], 0);
    assert_eq!(step.poll, WritePoll::Next(WriteStage::Done));
    assert_eq!(
        step.actions,
        vec![
            Action::EnterCritical,
            Action::WriteDieptsiz(1, Dieptsiz { mcnt: 1, pktcnt: 1, xfrsiz: 6 }),
            Action::ModifyDiepctl(1, Epctl { cnak: Some(true), epena: Some(true), ..Epctl::none() }),
            Action::WriteFifo(1, 0x0403_0201),
            Action::WriteFifo(1, 0x0000_0605),
            Action::ExitCritical,
        ]
    );
    let step = ep.write_transfer(ByteOrder::Little, &[], 0);
    assert_eq!(step.actions.len(), 4);
}

#[test]
fn sending_by_dma() {
    let ep = ep_in(2, EndpointType::Isochronous, true);
    assert_eq!(ep.write_previous(6, ACTIVE), WritePoll::Next(WriteStage::Transfer));
    let step = ep.write_transfer(ByteOrder::Little, &[1, 2, 3], 0x2000_4000);
    assert_eq!(step.poll, WritePoll::Next(WriteStage::Completion));
    let enable = Epctl { cnak: Some(true), epena: Some(true), ..Epctl::none() };
    assert_eq!(
        step.actions,
        vec![
            Action::CleanCache { addr: 0x2000_4000, len: 3 },
            Action::EnterCritical,
            Action::WriteDieptsiz(2, Dieptsiz { mcnt: 1, pktcnt: 1, xfrsiz: 3 }),
            Action::WriteDiepdma(2, 0x2000_4000),
            Action::Probe(Probe::FrameNumber(Direction::In, 2)),
            Action::ModifyDiepctl(2, enable),
            Action::ExitCritical,
        ]
    );
    let step = ep.write_transfer(ByteOrder::Little, &[], 0x2000_4000);
    assert_eq!(step.actions[0], Action::EnterCritical);
    assert_eq!(step.actions[2], Action::WriteDiepdma(2, 0x0020_0000));
    assert_eq!(ep.write_completion(BUSY), WritePoll::Pending);
    assert_eq!(ep.write_completion(ACTIVE), WritePoll::Next(WriteStage::Done));
    assert_eq!(ep.write_completion(RESET), WritePoll::Next(WriteStage::Done));
}

#[test]
fn endpoints_tell_about_themselves() {
    let ep = ep_in(2, EndpointType::Bulk, false);
    assert_eq!(*ep.info(), info(0x82, EndpointType::Bulk, 16));
    assert!(ep.wait_enabled(ACTIVE));
    assert!(!ep.wait_enabled(OFF));
}

#[test]
fn probes_are_followed_in_place() {
    let mut program = Program::new(&[Action::Probe(Probe::RxLevel), Action::WakeBus]);
    assert_eq!(program.next(), Some(Action::Probe(Probe::RxLevel)));
    program.precede(&rx_level(true));
    assert_eq!(program.next(), Some(Action::Probe(Probe::RxStatus)));
    program.precede(&[Action::WakeOut(1), Action::WakeOut(2)]);
    assert_eq!(program.next(), Some(Action::WakeOut(1)));
    assert_eq!(program.next(), Some(Action::WakeOut(2)));
    assert_eq!(program.next(), Some(Action::Probe(Probe::RxLevel)));
    program.precede(&rx_level(false));
    assert_eq!(program.next(), Some(Action::WakeBus));
    assert_eq!(program.next(), None);
}

#[test]
fn readings_are_handed_to_their_functions() {
    let mut s = state();
    let mut m = [0u8; 64];
    let mut ask = |probe: Probe, reading: Reading| {
        assert!(is_answerable(&s, m.len(), 4, probe, &reading));
        follow(&mut s, &mut m, PLAIN, 4, probe, &reading)
    };
    let p = Action::Probe;
    assert_eq!(ask(Probe::RxLevel, Reading::RxLevel(true)), vec![p(Probe::RxStatus), p(Probe::RxLevel)]);
    assert_eq!(
        ask(Probe::RxStatus, Reading::RxStatus(rx(1, 3, Pktstsd::OutDataRx))),
        vec![p(Probe::OutWords { ep: 1, len: 3 })]
    );
    assert_eq!(
        ask(Probe::OutWords { ep: 1, len: 3 }, Reading::OutWords(vec![0xff03_0201])),
        vec![Action::WakeOut(1)]
    );
    assert_eq!(ask(Probe::TxPending(2), Reading::TxPending(1)), tx_pending(2, 1));
    assert_eq!(ask(Probe::SetupWords, Reading::SetupWords(0x0302_0100, 0x0706_0504)), vec![]);
    assert_eq!(ask(Probe::InMask, Reading::InMask(5)), vec![p(Probe::InFlags(0)), p(Probe::InFlags(2))]);
    assert_eq!(ask(Probe::OutMask, Reading::OutMask(2)), vec![p(Probe::OutFlags(1))]);
    let ints = Diepint { bits: 7, txfe: true };
    assert_eq!(ask(Probe::InFlags(2), Reading::InFlags(ints)), in_flags(2, ints));
    let ints = Doepint { bits: 8, stup: true, xfrc: false };
    assert_eq!(
        ask(Probe::OutFlags(0), Reading::OutFlags(ints)),
        vec![Action::WriteDoepint(0, 8), Action::WakeOut(0), Action::WakeOut(0)]
    );
    assert_eq!(ask(Probe::Remaining(3), Reading::Remaining(0)), vec![Action::WakeOut(3)]);
    let stop = Epctl { snak: Some(true), epdis: Some(true), ..Epctl::none() };
    assert_eq!(
        ask(Probe::CancelTransfer(Direction::Out, 1), Reading::CancelTransfer(true)),
        vec![Action::ModifyDoepctl(1, stop)]
    );
    assert_eq!(ask(Probe::AbortIn(1), Reading::AbortIn(false)), vec![]);
    assert_eq!(
        ask(Probe::FrameNumber(Direction::In, 3), Reading::FrameNumber(1)),
        frame_parity(Direction::In, 3, 1)
    );
    assert_eq!(ask(Probe::EnumSpeed, Reading::EnumSpeed(9)).len(), 1);
    assert_eq!(m[16..20], [1, 2, 3, 0]);
    assert_eq!(s.ep_states[1].out_size, 3);
    assert_eq!(s.ep_states[3].out_size, 0);
    assert_eq!(pipe(false).setup(&mut s).packet, Some([0, 1, 2, 3, 4, 5, 6, 7]));
    assert_eq!(
        follow(&mut s, &mut m, DMA, 4, Probe::SetupBuffer, &Reading::SetupBuffer([8; 8])).len(),
        4
    );
    assert_eq!(pipe(true).setup(&mut s).packet, Some([8; 8]));
}

#[test]
fn readings_that_do_not_fit_are_told() {
    let mut s = state();
    let told = |s: &State<4>, probe: Probe, reading: Reading| !is_answerable(s, 64, 3, probe, &reading);
    assert!(told(&s, Probe::RxLevel, Reading::InMask(1)));
    assert!(told(&s, Probe::RxStatus, Reading::RxStatus(rx(3, 3, Pktstsd::OutDataRx))));
    assert!(told(&s, Probe::Remaining(4), Reading::Remaining(0)));
    let probe = Probe::OutWords { ep: 1, len: 17 };
    assert!(told(&s, probe, Reading::OutWords(vec![0; 5])));
    assert!(told(&s, Probe::OutWords { ep: 1, len: 16 }, Reading::OutWords(vec![0; 5])));
    assert!(told(&s, Probe::OutWords { ep: 4, len: 1 }, Reading::OutWords(vec![0; 1])));
    // a packet that is dropped need not fit
    s.ep_states[1].out_size = 0;
    assert!(!told(&s, probe, Reading::OutWords(vec![0; 5])));
}

#[test]
fn received_in_fifo_mode_of_a_build_with_dma() {
    let mut s = state();
    let mut m = [0u8; 64];
    let mut program = Program::new(&on_interrupt(Gintsts::none(), DMA, &s));
    let mut queue = 1;
    let mut woken = Vec::new();
    while let Some(action) = program.next() {
        match action {
            Action::Probe(probe) => {
                let reading = match probe {
                    Probe::RxLevel => Reading::RxLevel(queue > 0),
                    Probe::RxStatus => {
                        queue -= 1;
                        Reading::RxStatus(rx(2, 5, Pktstsd::OutDataRx))
                    }
                    Probe::OutWords { len, .. } => {
                        assert_eq!(packet_words(len), 2);
                        Reading::OutWords(vec![0x0403_0201, 0x0000_0005])
                    }
                    other => panic!("{:?}", other),
                };
                program.precede(&follow(&mut s, &mut m, DMA, 4, probe, &reading));
            }
            other => woken.push(other),
        }
    }
    assert_eq!(woken, vec![Action::WakeOut(2)]);
    assert_eq!(s.ep_states[2].out_size, 5);
    assert_eq!(m[32..38], [1, 2, 3, 4, 5, 0]);
}
