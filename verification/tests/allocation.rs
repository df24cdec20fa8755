use synopsys_otg::action::Action;
use synopsys_otg::bus::Bus;
use synopsys_otg::config::{Config, Features, OtgInstance, PhyType};
use synopsys_otg::control::ControlPipe;
use synopsys_otg::driver::{Driver, PacketMemory};
use synopsys_otg::registers::{Dieptxf, Grstctl};
use synopsys_otg::state::{BufferSlot, State};
use synopsys_otg::types::{
    Direction, EndpointAddress, EndpointAllocError, EndpointType,
};

const PLAIN: Features = Features { dma: false, ar8030: false };

fn instance(depth: u16, count: usize) -> OtgInstance {
    OtgInstance {
        fifo_depth_words: depth,
        endpoint_count: count,
        phy_type: PhyType::InternalFullSpeed,
        extra_rx_fifo_words: 30,
        features: PLAIN,
    }
}

fn driver(memory: usize, depth: u16, count: usize) -> (Driver<6>, State<6>) {
    let memory = PacketMemory { addr: 0x2000_0000, len: memory };
    (Driver::new(memory, instance(depth, count), Config::default()), State::new())
}

fn started() -> (Bus<6>, ControlPipe, State<6>) {
    let (mut d, mut s) = driver(256, 320, 4);
    d.alloc_endpoint_in(&mut s, EndpointType::Bulk, None, 64, 0).unwrap();
    d.alloc_endpoint_in(&mut s, EndpointType::Interrupt, None, 100, 10).unwrap();
    d.alloc_endpoint_out(&mut s, EndpointType::Bulk, None, 64, 0).unwrap();
    assert!(d.can_start(64));
    let (bus, pipe) = d.start(&mut s, 64);
    (bus, pipe, s)
}

#[test]
fn first_free_slot_skips_endpoint_0() {
    let (mut d, mut s) = driver(256, 320, 4);
    let ep = d.alloc_endpoint_in(&mut s, EndpointType::Bulk, None, 64, 7).unwrap();
    assert_eq!(ep.info.addr, EndpointAddress { byte: 0x81 });
    assert_eq!(ep.info.ep_type, EndpointType::Bulk);
    assert_eq!(ep.info.max_packet_size, 64);
    assert_eq!(ep.info.interval_ms, 7);
    assert!(!ep.dma_enable);
    let ep = d.alloc_endpoint_in(&mut s, EndpointType::Bulk, None, 64, 0).unwrap();
    assert_eq!(ep.info.addr.index(), 2);
    let ep = d.alloc_endpoint_out(&mut s, EndpointType::Bulk, None, 64, 0).unwrap();
    assert_eq!(ep.info.addr, EndpointAddress { byte: 0x01 });
    let ep = d.alloc_endpoint_in(&mut s, EndpointType::Control, None, 64, 0).unwrap();
    assert_eq!(ep.info.addr.index(), 0);
}

#[test]
fn requested_slot_is_used_or_refused() {
    let (mut d, mut s) = driver(256, 320, 4);
    let at = |i: usize| Some(EndpointAddress::from_parts(i, Direction::In));
    let ep = d.alloc_endpoint_in(&mut s, EndpointType::Bulk, at(3), 64, 0).unwrap();
    assert_eq!(ep.info.addr, EndpointAddress { byte: 0x83 });
    // taken
    assert_eq!(d.alloc_endpoint_in(&mut s, EndpointType::Bulk, at(3), 64, 0).err(), Some(EndpointAllocError));
    // not there
    assert!(d.alloc_endpoint_in(&mut s, EndpointType::Bulk, at(4), 64, 0).is_err());
    // kept for the control pipe
    assert!(d.alloc_endpoint_in(&mut s, EndpointType::Bulk, at(0), 64, 0).is_err());
    assert!(d.alloc_endpoint_in(&mut s, EndpointType::Control, at(0), 64, 0).is_ok());
}

#[test]
fn runs_out_of_endpoints() {
    let (mut d, mut s) = driver(256, 1000, 3);
    assert!(d.alloc_endpoint_in(&mut s, EndpointType::Bulk, None, 64, 0).is_ok());
    assert!(d.alloc_endpoint_in(&mut s, EndpointType::Bulk, None, 64, 0).is_ok());
    assert!(d.alloc_endpoint_in(&mut s, EndpointType::Bulk, None, 64, 0).is_err());
}

#[test]
fn runs_out_of_packet_memory() {
    let (mut d, mut s) = driver(100, 1000, 4);
    assert!(d.alloc_endpoint_out(&mut s, EndpointType::Bulk, None, 64, 0).is_ok());
    assert!(d.alloc_endpoint_out(&mut s, EndpointType::Bulk, None, 37, 0).is_err());
    assert_eq!(d.ep_out_buffer_offset, 64);
    assert!(d.ep_out[2].is_none());
    assert!(d.alloc_endpoint_out(&mut s, EndpointType::Bulk, None, 36, 0).is_ok());
    assert_eq!(d.ep_out_buffer_offset, 100);
    assert_eq!(s.ep_states[1].out_buffer, BufferSlot { offset: 0, len: 64, addr: 0x2000_0000 });
    assert_eq!(s.ep_states[2].out_buffer, BufferSlot { offset: 64, len: 36, addr: 0x2000_0040 });
}

#[test]
fn runs_out_of_fifo() {
    // 30 extra words, 16 for the first endpoint, 25 for the second
    let (mut d, mut s) = driver(256, 71, 4);
    assert_eq!(d.allocated_fifo_words(), 30);
    assert!(d.alloc_endpoint_in(&mut s, EndpointType::Bulk, None, 8, 0).is_ok());
    assert_eq!(d.allocated_fifo_words(), 46);
    assert!(d.alloc_endpoint_in(&mut s, EndpointType::Bulk, None, 101, 0).is_err());
    assert!(d.alloc_endpoint_in(&mut s, EndpointType::Bulk, None, 100, 0).is_ok());
    assert_eq!(d.allocated_fifo_words(), 71);
    assert!(d.alloc_endpoint_out(&mut s, EndpointType::Bulk, None, 1, 0).is_err());
}

#[test]
fn large_packets_do_not_wrap_around() {
    let (mut d, mut s) = driver(70000, 65535, 4);
    let ep = d.alloc_endpoint_in(&mut s, EndpointType::Bulk, None, 65535, 0).unwrap();
    assert_eq!(ep.info.max_packet_size, 65535);
    assert_eq!(d.ep_in[1].unwrap().fifo_size_words, 16384);
}

#[test]
fn start_takes_endpoint_0() {
    let (bus, pipe, s) = started();
    assert_eq!(pipe.max_packet_size(), 64);
    assert_eq!(pipe.ep_in.info.addr, EndpointAddress { byte: 0x80 });
    assert_eq!(pipe.ep_out.info.addr, EndpointAddress { byte: 0x00 });
    assert_eq!(bus.ep_in[0].unwrap().ep_type, EndpointType::Control);
    assert_eq!(bus.ep_out[0].unwrap().fifo_size_words, 16);
    assert!(!bus.inited);
    assert!(bus.is_configurable());
    assert_eq!(s.ep_states[0].out_buffer, BufferSlot { offset: 64, len: 64, addr: 0x2000_0040 });
}

#[test]
fn start_needs_endpoint_0_and_room() {
    let (mut d, mut s) = driver(256, 320, 4);
    d.alloc_endpoint_in(&mut s, EndpointType::Control, None, 8, 0).unwrap();
    assert!(!d.can_start(64));
    let (d, _) = driver(63, 320, 4);
    assert!(!d.can_start(64));
    assert!(d.can_start(32));
    let (d, _) = driver(64, 61, 4);
    assert!(!d.can_start(64));
    let (d, _) = driver(64, 62, 4);
    assert!(d.can_start(64));
    let (d, _) = driver(64, 320, 0);
    assert!(!d.can_start(64));
}

#[test]
fn fifos_are_laid_out_without_overlap() {
    let (bus, _, _) = started();
    // 30 extra words and two OUT endpoints of 16 words
    let expected = vec![
        Action::EnterCritical,
        Action::ModifyGrxfsiz(62),
        Action::WriteDieptxf0(Dieptxf { fd: 16, sa: 62 }),
        Action::WriteDieptxf(0, Dieptxf { fd: 16, sa: 78 }),
        Action::WriteDieptxf(1, Dieptxf { fd: 25, sa: 94 }),
        Action::WriteGrstctl(Grstctl {
            csrst: None,
            rxfflsh: Some(true),
            txfflsh: Some(true),
            txfnum: Some(0x10),
        }),
        Action::ExitCritical,
        Action::WaitFifoFlush,
    ];
    assert_eq!(bus.init_fifo(), expected);
}

#[test]
fn addresses_keep_number_and_direction() {
    for i in 0..128usize {
        for dir in [Direction::Out, Direction::In] {
            let addr = EndpointAddress::from_parts(i, dir);
            assert_eq!(addr.index(), i);
            assert_eq!(addr.direction(), dir);
        }
    }
    // the number has seven bits
    assert_eq!(EndpointAddress::from_parts(130, Direction::In).byte, 0x82);
    assert_eq!(EndpointAddress::from_parts(130, Direction::Out).byte, 0x82);
    assert_eq!(EndpointAddress::from_parts(258, Direction::Out).byte, 0x02);
}
