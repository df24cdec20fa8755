//! What allocation and the tables, words and cache lines behind it come to.
//!
//! Each law speaks of what an operation returns and leaves behind, for all that it may be given.
use crate::bus::Bus;
use crate::cache::{
    align_range, dcache_clean_invalidate_range, dcache_clean_range, dcache_invalidate_range,
    in_address_space, CacheOp,
};
use crate::config::{Config, OtgInstance, PhyType};
use crate::control::ControlPipe;
use crate::driver::{is_slot, usable, Driver, PacketMemory};
use crate::endpoint::{Dir, Endpoint, In, Out};
use crate::fifo::{
    lemma_bytes_of_word, packet_word, packet_words, padded, word_from_bytes, word_to_bytes,
    ByteOrder,
};
use crate::registers::{
    Daintmsk, Dcfg, Dctl, Doepmsk, Doeptsiz, Dspd, Epctl, Eptyp, GccfgV1, GccfgV2, GccfgV3,
    Gintmsk, Gintsts, Gotgctl, Grstctl, Gusbcfg,
};
use crate::state::State;
use crate::table::{
    bit, ep0_mpsiz, ep_fifo_size, ep_irq_mask, fifo_empty_mask, maskable, to_eptyp,
    total_bytes, total_words, EndpointData,
};
use crate::types::{Direction, EndpointAddress, EndpointAllocError, EndpointType};
use vstd::prelude::*;

verus! {

// Words and bytes
/// A word made of bytes is split into the same bytes again, in either byte order, and the two orders
/// are mirror images: the first byte in memory is the low one in one, and the high one in the other.
pub proof fn law_words_and_bytes(
    b: [u8; 4],
    little: u32,
    big: u32,
    little_bytes: [u8; 4],
    big_bytes: [u8; 4],
)
    requires
        call_ensures(word_from_bytes, (ByteOrder::Little, b), little),
        call_ensures(word_from_bytes, (ByteOrder::Big, b), big),
        call_ensures(word_to_bytes, (ByteOrder::Little, little), little_bytes),
        call_ensures(word_to_bytes, (ByteOrder::Big, big), big_bytes),
    ensures
        little_bytes@ == b@,
        big_bytes@ == b@,
        little % 0x100 == b@[0],
        big % 0x100 == b@[3],
        little / 0x100_0000 == b@[3],
        big / 0x100_0000 == b@[0],
        little / 0x100 % 0x100 == b@[1],
        big / 0x100 % 0x100 == b@[2],
        little / 0x1_0000 % 0x100 == b@[2],
        big / 0x1_0000 % 0x100 == b@[1],
{
    lemma_bytes_of_word(ByteOrder::Little, b@);
    lemma_bytes_of_word(ByteOrder::Big, b@);
    let l = little_bytes@;
    let g = big_bytes@;
    assert(l[0] == b@[0] && l[1] == b@[1] && l[2] == b@[2] && l[3] == b@[3]);
    assert(g[0] == b@[0] && g[1] == b@[1] && g[2] == b@[2] && g[3] == b@[3]);
}

/// A packet takes as few words as hold its bytes.
pub proof fn law_packet_takes_few_words(len: usize, r: usize)
    requires
        call_ensures(packet_words, (len,), r),
    ensures
        len <= 4 * r < len + 4,
{
}

/// Each word of a packet holds four of its bytes in the machine's order, or fewer at its end and
/// zeros behind them.
pub proof fn law_packet_word_holds_its_bytes(
    order: ByteOrder,
    data: &[u8],
    k: usize,
    r: u32,
    bytes: [u8; 4],
    j: int,
)
    requires
        call_ensures(packet_word, (order, data, k), r),
        call_ensures(word_to_bytes, (order, r), bytes),
        4 * k < data@.len(),
        0 <= j < 4,
    ensures
        bytes@[j] == if 4 * k + j < data@.len() {
            data@[4 * k + j]
        } else {
            0
        },
{
    let b = seq![
        padded(data@, 4 * k),
        padded(data@, 4 * k + 1),
        padded(data@, 4 * k + 2),
        padded(data@, 4 * k + 3),
    ];
    lemma_bytes_of_word(order, b);
    assert(bytes@ == b);
}

// Cache lines
/// Whether cache operations maintain a range: between a barrier before and two behind, one
/// operation for each line from the one that holds the first byte to the one that holds the last,
/// one after the other.
pub open spec fn maintains(
    ops: Seq<CacheOp>,
    start: int,
    len: int,
    what: spec_fn(CacheOp) -> Option<u32>,
) -> bool {
    let n = ops.len() - 3;
    let first = start / 32;
    let last = (start + len - 1) / 32;
    &&& n == last - first + 1
    &&& ops[0] is Dsb
    &&& ops[n + 1] is Dsb
    &&& ops[n + 2] is Isb
    &&& forall|k: int|
        0 <= k < n ==> what(#[trigger] ops[k + 1]) == Some((32 * (first + k)) as u32)
}

/// Maintaining a range of the data cache does the operation asked for on every line that holds a
/// byte of it and on no other. Where there is no byte, or the cache is off, nothing is done.
pub proof fn law_cache_lines_are_maintained(
    enabled: bool,
    start: usize,
    len: usize,
    invalidated: Vec<CacheOp>,
    cleaned: Vec<CacheOp>,
    both: Vec<CacheOp>,
)
    requires
        call_ensures(dcache_invalidate_range, (enabled, start, len), invalidated),
        call_ensures(dcache_clean_range, (enabled, start, len), cleaned),
        call_ensures(dcache_clean_invalidate_range, (enabled, start, len), both),
        in_address_space(start, len),
    ensures
        !enabled || len == 0 ==> invalidated@.len() == 0 && cleaned@.len() == 0 && both@.len() == 0,
        enabled && len > 0 ==> {
            &&& maintains(
                invalidated@,
                start as int,
                len as int,
                |op: CacheOp|
                    match op {
                        CacheOp::Invalidate(a) => Some(a),
                        _ => None,
                    },
            )
            &&& maintains(
                cleaned@,
                start as int,
                len as int,
                |op: CacheOp|
                    match op {
                        CacheOp::Clean(a) => Some(a),
                        _ => None,
                    },
            )
            &&& maintains(
                both@,
                start as int,
                len as int,
                |op: CacheOp|
                    match op {
                        CacheOp::CleanInvalidate(a) => Some(a),
                        _ => None,
                    },
            )
        },
{
}

/// Widening a range to whole lines moves each end by less than a line, outwards, to a multiple of
/// the line size.
pub proof fn law_ranges_are_widened(start: usize, len: usize, r: (usize, usize))
    requires
        call_ensures(align_range, (start, len), r),
        in_address_space(start, len),
    ensures
        r.0 % 32 == 0,
        r.1 % 32 == 0,
        r.0 <= start < r.0 + 32,
        r.1 - 32 < start + len <= r.1,
{
}

// Tables
/// The FIFO words of a table are those of its endpoints, added up one by one.
pub proof fn law_words_add_up(eps: Seq<Option<EndpointData>>, slot: Option<EndpointData>)
    ensures
        total_words(Seq::<Option<EndpointData>>::empty()) == 0,
        total_words(eps.push(slot)) == total_words(eps) + (if slot is Some {
            slot->0.fifo_size_words as int
        } else {
            0
        }),
        total_bytes(Seq::<Option<EndpointData>>::empty()) == 0,
        total_bytes(eps.push(slot)) == total_bytes(eps) + (if slot is Some {
            slot->0.max_packet_size as int
        } else {
            0
        }),
{
    assert(eps.push(slot).drop_last() =~= eps);
}

/// What is computed of a table is that sum.
pub proof fn law_fifo_size_is_the_sum(eps: &[Option<EndpointData>], r: u16)
    requires
        call_ensures(ep_fifo_size, (eps,), r),
        total_words(eps@) <= u16::MAX,
    ensures
        r == total_words(eps@),
{
}

/// The mask of a table has the bit of exactly those endpoints that are allocated.
pub proof fn law_mask_tells_allocated(eps: &[Option<EndpointData>], r: u16, i: int)
    requires
        call_ensures(ep_irq_mask, (eps,), r),
        maskable(eps@),
        0 <= i < 16,
    ensures
        r & (1u16 << (i as u16)) != 0 <==> i < eps@.len() && eps@[i] is Some,
{
    assert(bit(r, i) <==> (0 <= i < eps@.len() && eps@[i] is Some));
}

/// Enabling or disabling the FIFO-empty interrupt of an endpoint sets or clears its own bit, and
/// leaves every other as it is.
pub proof fn law_one_mask_bit_changes(
    ineptxfem: u16,
    ep: usize,
    enabled: bool,
    r: u16,
    i: int,
)
    requires
        call_ensures(fifo_empty_mask, (ineptxfem, ep, enabled), r),
        ep < 16,
        0 <= i < 16,
    ensures
        i == ep ==> (r & (1u16 << (i as u16)) != 0 <==> enabled),
        i != ep ==> (r & (1u16 << (i as u16)) != 0 <==> ineptxfem & (1u16 << (i as u16)) != 0),
{
    assert(bit(r, i) == if i == ep {
        enabled
    } else {
        bit(ineptxfem, i)
    });
}

/// The transfer types and the sizes of endpoint 0 have codes of their own: no two the same.
pub proof fn law_codes_are_distinct(
    type1: EndpointType,
    type2: EndpointType,
    code1: Eptyp,
    code2: Eptyp,
    size1: u16,
    size2: u16,
    mpsiz1: u16,
    mpsiz2: u16,
)
    requires
        call_ensures(to_eptyp, (type1,), code1),
        call_ensures(to_eptyp, (type2,), code2),
        call_ensures(ep0_mpsiz, (size1,), mpsiz1),
        call_ensures(ep0_mpsiz, (size2,), mpsiz2),
        size1 == 8 || size1 == 16 || size1 == 32 || size1 == 64,
        size2 == 8 || size2 == 16 || size2 == 32 || size2 == 64,
    ensures
        code1 == code2 <==> type1 == type2,
        code1 is Control <==> type1 is Control,
        code1 is Isochronous <==> type1 is Isochronous,
        code1 is Bulk <==> type1 is Bulk,
        code1 is Interrupt <==> type1 is Interrupt,
        size1 < size2 <==> mpsiz1 > mpsiz2,
        mpsiz1 <= 3,
{
}

// Configuration
/// What a PHY is: internal or not, of high speed or not, and the device speed that it runs at.
pub proof fn law_phy_types(phy: PhyType, internal: bool, high_speed: bool, dspd: Dspd)
    requires
        call_ensures(PhyType::internal, (&phy,), internal),
        call_ensures(PhyType::high_speed, (&phy,), high_speed),
        call_ensures(PhyType::to_dspd, (&phy,), dspd),
    ensures
        internal <==> (phy is InternalFullSpeed || phy is InternalHighSpeed),
        high_speed <==> (phy is InternalHighSpeed || phy is ExternalHighSpeed),
        dspd is HighSpeed <==> high_speed,
        dspd is FullSpeedInternal <==> !high_speed && internal,
        dspd is FullSpeedExternal <==> !high_speed && !internal,
{
}

/// DMA is in use exactly where the build has it and the configuration asks for it.
pub proof fn law_dma_is_asked_for(instance: OtgInstance, config: Config, r: bool)
    requires
        call_ensures(OtgInstance::dma_in_use, (&instance, &config), r),
    ensures
        r <==> instance.features.dma && config.dma_enable,
{
}

/// A new state has nothing received, nothing allocated and no DMA in use.
pub proof fn law_new_state_is_empty<const N: usize>(r: State<N>, i: int)
    requires
        call_ensures(State::<N>::new, (), r),
        0 <= i < N,
    ensures
        r.ep_states@[i].out_size == 0xFFFF,
        r.ep_states@[i].out_xfer_size == 0,
        r.ep_states@[i].out_buffer.len == 0,
        !r.cp_state.setup_ready,
        !r.dma_enabled,
{
}

/// A machine on which the bytes 1, 0, 0, 0 make the word 1 keeps the least significant byte first,
/// and no other does. The SETUP buffer's address is handed to the core by its low 32 bits.
pub proof fn law_machine_and_addresses<const N: usize>(
    word: u32,
    order: ByteOrder,
    state: State<N>,
    addr: u32,
)
    requires
        call_ensures(ByteOrder::of_probe, (word,), order),
        call_ensures(State::<N>::setup_dma_buf_addr, (&state,), addr),
    ensures
        order is Little <==> word == 1,
        addr == state.setup_dma_buf as u32,
{
}

/// Addresses have the direction in the top bit and the number below it.
pub proof fn law_addresses_are_made_of_parts(
    index: usize,
    dir: Direction,
    addr: EndpointAddress,
    number: usize,
    heading: Direction,
)
    requires
        call_ensures(EndpointAddress::from_parts, (index, dir), addr),
        call_ensures(EndpointAddress::index, (&addr,), number),
        call_ensures(EndpointAddress::direction, (&addr,), heading),
        index < 128,
    ensures
        number == index,
        heading == dir,
        dir is In ==> addr.byte == 128 + index,
        dir is Out ==> addr.byte == index,
{
}

// Registers
/// A register value with no field set sets nothing, and one with no flag has none.
pub proof fn law_none_sets_nothing()
    ensures
        ({
            let c = Epctl::none();
            c.mpsiz is None && c.usbaep is None && c.eptyp is None && c.stall is None && c.txfnum
                is None && c.cnak is None && c.snak is None && c.sd0pid_sevnfrm is None
                && c.sd1pid_soddfrm is None && c.epdis is None && c.epena is None
        }),
        ({
            let g = Gintsts::none();
            !g.wkupint && !g.usbsusp && !g.usbrst && !g.enumdne && !g.otgint && !g.srqint
                && !g.rxflvl && !g.iepint && !g.oepint
        }),
        ({
            let m = Gintmsk::none();
            !m.usbrst && !m.enumdnem && !m.usbsuspm && !m.wuim && !m.iepint && !m.oepint
                && !m.rxflvlm && !m.srqim && !m.otgint
        }),
        ({
            let g = Gusbcfg::none();
            g.fdmod is None && g.physel is None && g.trdt is None
        }),
        ({
            let g = Grstctl::none();
            g.csrst is None && g.rxfflsh is None && g.txfflsh is None && g.txfnum is None
        }),
        ({
            let g = GccfgV1::none();
            g.pwrdwn is None && g.novbussens is None && g.vbusasen is None && g.vbusbsen is None
                && g.sofouten is None
        }),
        ({
            let g = GccfgV2::none();
            g.pwrdwn is None && g.phyhsen is None && g.vbden is None
        }),
        ({
            let g = GccfgV3::none();
            g.vbvaloven is None && g.vbvaloval is None && g.vbden is None
        }),
        ({
            let g = Gotgctl::none();
            g.bvaloen is None && g.bvaloval is None
        }),
        ({
            let d = Dcfg::none();
            d.pfivl is None && d.dspd is None && d.xcvrdly is None && d.dad is None
        }),
        ({
            let d = Dctl::none();
            d.sdis is None && d.cginak is None
        }),
        ({
            let d = Doepmsk::none();
            !d.stupm && !d.xfrcm && !d.epdm && !d.otepdm
        }),
        ({
            let d = Daintmsk::none();
            d.iepm is None && d.oepm is None
        }),
        ({
            let d = Doeptsiz::none();
            d.rxdpid_stupcnt is None && d.pktcnt is None && d.xfrsiz is None
        }),
{
}

// Endpoints
/// FIFO words that an endpoint is to have: enough for one packet, and no fewer than 16 for an IN
/// endpoint.
pub open spec fn fifo_share(dir: Direction, max_packet_size: u16) -> int {
    let words = (max_packet_size + 3) / 4;
    if dir is In && words < 16 {
        16
    } else {
        words
    }
}

/// Whether slot `i` of a table can be given to an endpoint of this type.
pub open spec fn slot_is_free(
    table: Seq<Option<EndpointData>>,
    ep_type: EndpointType,
    i: int,
) -> bool {
    &&& table[i] is None
    &&& i == 0 ==> ep_type is Control
}

/// Whether there is a slot for an endpoint: the one that was asked for, or any.
pub open spec fn slot_is_there(
    table: Seq<Option<EndpointData>>,
    count: int,
    ep_type: EndpointType,
    addr: Option<EndpointAddress>,
) -> bool {
    match addr {
        Some(a) => a.byte as int % 128 < count && slot_is_free(
            table,
            ep_type,
            a.byte as int % 128,
        ),
        None => exists|i: int| 0 <= i < count && #[trigger] slot_is_free(table, ep_type, i),
    }
}

/// Whether there is FIFO space, and for an OUT endpoint packet memory, for one endpoint more.
pub open spec fn space_is_there<const N: usize>(
    driver: Driver<N>,
    dir: Direction,
    max_packet_size: u16,
) -> bool {
    &&& fifo_share(dir, max_packet_size) + driver.instance.extra_rx_fifo_words + total_words(
        driver.ep_out@,
    ) + total_words(driver.ep_in@) <= driver.instance.fifo_depth_words
    &&& dir is Out ==> driver.ep_out_buffer_offset + max_packet_size <= driver.ep_out_buffer.len
}

/// Whether one table has become another by an endpoint put into slot `i`.
pub open spec fn slot_is_filled(
    before: Seq<Option<EndpointData>>,
    after: Seq<Option<EndpointData>>,
    i: int,
    dir: Direction,
    ep_type: EndpointType,
    max_packet_size: u16,
) -> bool {
    &&& after.len() == before.len()
    &&& forall|j: int|
        0 <= j < before.len() && j != i ==> #[trigger] after[j] == before[j]
    &&& after[i] is Some
    &&& after[i]->0.ep_type == ep_type
    &&& after[i]->0.max_packet_size == max_packet_size
    &&& after[i]->0.fifo_size_words == fifo_share(dir, max_packet_size)
}

/// Whether slot `i` is the one for an endpoint: the one that was asked for, or else the lowest that
/// is free.
pub open spec fn slot_is_right(
    table: Seq<Option<EndpointData>>,
    count: int,
    ep_type: EndpointType,
    addr: Option<EndpointAddress>,
    i: int,
) -> bool {
    &&& 0 <= i < count
    &&& slot_is_free(table, ep_type, i)
    &&& addr is Some ==> i == addr->0.byte as int % 128
    &&& addr is None ==> forall|j: int| 0 <= j < i ==> !#[trigger] slot_is_free(table, ep_type, j)
}

/// Whether an endpoint has been added to a driver, as `ep`, and nothing else has changed. An OUT
/// endpoint has been given the next part of the packet memory, as long as its largest packet.
pub open spec fn endpoint_is_added<D: Dir, const N: usize>(
    before: Driver<N>,
    after: Driver<N>,
    state: State<N>,
    state_after: State<N>,
    ep_type: EndpointType,
    addr: Option<EndpointAddress>,
    max_packet_size: u16,
    interval_ms: u8,
    ep: Endpoint<D>,
) -> bool {
    let i = ep.info.addr.byte as int % 128;
    let count = before.instance.endpoint_count as int;
    &&& after.config == before.config
    &&& after.instance == before.instance
    &&& after.ep_out_buffer == before.ep_out_buffer
    &&& ep.info.addr.byte >= 128 <==> D::direction() is In
    &&& ep.info.ep_type == ep_type
    &&& ep.info.max_packet_size == max_packet_size
    &&& ep.info.interval_ms == interval_ms
    &&& ep.dma_enable == (before.instance.features.dma && before.config.dma_enable)
    &&& D::direction() is In ==> {
        &&& slot_is_right(before.ep_in@, count, ep_type, addr, i)
        &&& slot_is_filled(
            before.ep_in@,
            after.ep_in@,
            i,
            Direction::In,
            ep_type,
            max_packet_size,
        )
        &&& after.ep_out == before.ep_out
        &&& after.ep_out_buffer_offset == before.ep_out_buffer_offset
        &&& state_after == state
    }
    &&& D::direction() is Out ==> {
        let slot = state_after.ep_states@[i].out_buffer;
        &&& slot_is_right(before.ep_out@, count, ep_type, addr, i)
        &&& slot_is_filled(
            before.ep_out@,
            after.ep_out@,
            i,
            Direction::Out,
            ep_type,
            max_packet_size,
        )
        &&& after.ep_in == before.ep_in
        &&& after.ep_out_buffer_offset == before.ep_out_buffer_offset + max_packet_size
        &&& slot.offset == before.ep_out_buffer_offset
        &&& slot.len == max_packet_size
        &&& slot.addr == before.ep_out_buffer.addr + before.ep_out_buffer_offset
        &&& state_after.ep_states@[i].out_size == state.ep_states@[i].out_size
        &&& state_after.ep_states@[i].out_xfer_size == state.ep_states@[i].out_xfer_size
        &&& forall|j: int|
            0 <= j < N && j != i ==> #[trigger] state_after.ep_states@[j] == state.ep_states@[j]
        &&& state_after.cp_state == state.cp_state
        &&& state_after.dma_enabled == state.dma_enabled
        &&& state_after.setup_dma_buf == state.setup_dma_buf
        &&& state_after.byte_order == state.byte_order
    }
}

/// An allocation as the contract has it is one as it should be.
proof fn lemma_added<D: Dir, const N: usize>(
    before: Driver<N>,
    after: Driver<N>,
    state: State<N>,
    state_after: State<N>,
    ep_type: EndpointType,
    addr: Option<EndpointAddress>,
    mps: u16,
    interval: u8,
    i: int,
    ep: Endpoint<D>,
)
    requires
        before.wf(state),
        before.can_alloc(D::direction(), ep_type, addr, mps),
        before.allocates::<D>(state, after, state_after, ep_type, addr, mps, interval, i, ep),
    ensures
        endpoint_is_added(before, after, state, state_after, ep_type, addr, mps, interval, ep),
{
    EndpointAddress::law_parts(i, D::direction());
    assert(ep.info.addr.byte as int % 128 == i);
    let table = before.table(D::direction());
    assert forall|j: int| 0 <= j < i && addr is None implies !#[trigger] slot_is_free(
        table,
        ep_type,
        j,
    ) by {
        assert(!usable(table, ep_type, j));
    }
}

/// Room as the contract has it is room as it should be.
proof fn lemma_room<const N: usize>(
    driver: Driver<N>,
    dir: Direction,
    ep_type: EndpointType,
    addr: Option<EndpointAddress>,
    mps: u16,
)
    ensures
        driver.can_alloc(dir, ep_type, addr, mps) <==> space_is_there(driver, dir, mps)
            && slot_is_there(
            driver.table(dir),
            driver.instance.endpoint_count as int,
            ep_type,
            addr,
        ),
{
    let table = driver.table(dir);
    let count = driver.instance.endpoint_count as int;
    if slot_is_there(table, count, ep_type, addr) {
        match addr {
            Some(a) => {
                assert(is_slot(table, count, ep_type, addr, a.byte as int % 128));
            },
            None => {
                let i = choose|i: int| 0 <= i < count && #[trigger] slot_is_free(table, ep_type, i);
                lemma_lowest(table, count, ep_type, i);
            },
        }
    }
    if driver.can_alloc(dir, ep_type, addr, mps) {
        let i = choose|i: int| is_slot(table, count, ep_type, addr, i);
        assert(is_slot(table, count, ep_type, addr, i));
        assert(slot_is_free(table, ep_type, i));
    }
}

/// Where a slot is free, there is a lowest one.
proof fn lemma_lowest(
    table: Seq<Option<EndpointData>>,
    count: int,
    ep_type: EndpointType,
    i: int,
)
    requires
        0 <= i < count,
        slot_is_free(table, ep_type, i),
    ensures
        exists|j: int| is_slot(table, count, ep_type, None, j),
    decreases i,
{
    if exists|j: int| 0 <= j < i && #[trigger] slot_is_free(table, ep_type, j) {
        let j = choose|j: int| 0 <= j < i && #[trigger] slot_is_free(table, ep_type, j);
        lemma_lowest(table, count, ep_type, j);
    } else {
        assert forall|j: int| 0 <= j < i implies !#[trigger] usable(table, ep_type, j) by {
            assert(!slot_is_free(table, ep_type, j));
        }
        assert(is_slot(table, count, ep_type, None, i));
    }
}

/// An endpoint is allocated exactly where there is a slot, FIFO space and, for an OUT endpoint,
/// packet memory for it. It is then added, and nothing else changes; else nothing changes at all.
pub proof fn law_endpoints_are_allocated<D: Dir, const N: usize>(
    driver: &mut Driver<N>,
    state: &mut State<N>,
    ep_type: EndpointType,
    addr: Option<EndpointAddress>,
    mps: u16,
    interval: u8,
    r: Result<Endpoint<D>, EndpointAllocError>,
)
    requires
        call_ensures(
            Driver::<N>::alloc_endpoint::<D>,
            (driver, state, ep_type, addr, mps, interval),
            r,
        ),
        old(driver).wf(*old(state)),
    ensures
        r is Ok <==> space_is_there(*old(driver), D::direction(), mps) && slot_is_there(
            if D::direction() is In {
                old(driver).ep_in@
            } else {
                old(driver).ep_out@
            },
            old(driver).instance.endpoint_count as int,
            ep_type,
            addr,
        ),
        r is Err ==> *final(driver) == *old(driver) && *final(state) == *old(state),
        r is Ok ==> endpoint_is_added(
            *old(driver),
            *final(driver),
            *old(state),
            *final(state),
            ep_type,
            addr,
            mps,
            interval,
            r->Ok_0,
        ),
{
    lemma_room(*old(driver), D::direction(), ep_type, addr, mps);
    if r is Ok {
        let i = choose|i: int| #[trigger]
            old(driver).allocates::<D>(
                *old(state),
                *final(driver),
                *final(state),
                ep_type,
                addr,
                mps,
                interval,
                i,
                r->Ok_0,
            );
        lemma_added(
            *old(driver),
            *final(driver),
            *old(state),
            *final(state),
            ep_type,
            addr,
            mps,
            interval,
            i,
            r->Ok_0,
        );
    }
}

/// The same for an IN endpoint by its own operation.
pub proof fn law_in_endpoints_are_allocated<const N: usize>(
    driver: &mut Driver<N>,
    state: &mut State<N>,
    ep_type: EndpointType,
    addr: Option<EndpointAddress>,
    mps: u16,
    interval: u8,
    r: Result<Endpoint<In>, EndpointAllocError>,
)
    requires
        call_ensures(
            Driver::<N>::alloc_endpoint_in,
            (driver, state, ep_type, addr, mps, interval),
            r,
        ),
        old(driver).wf(*old(state)),
    ensures
        r is Ok <==> space_is_there(*old(driver), Direction::In, mps) && slot_is_there(
            old(driver).ep_in@,
            old(driver).instance.endpoint_count as int,
            ep_type,
            addr,
        ),
        r is Err ==> *final(driver) == *old(driver) && *final(state) == *old(state),
        r is Ok ==> endpoint_is_added(
            *old(driver),
            *final(driver),
            *old(state),
            *final(state),
            ep_type,
            addr,
            mps,
            interval,
            r->Ok_0,
        ),
{
    lemma_room(*old(driver), Direction::In, ep_type, addr, mps);
    if r is Ok {
        let i = choose|i: int| #[trigger]
            old(driver).allocates::<In>(
                *old(state),
                *final(driver),
                *final(state),
                ep_type,
                addr,
                mps,
                interval,
                i,
                r->Ok_0,
            );
        lemma_added(
            *old(driver),
            *final(driver),
            *old(state),
            *final(state),
            ep_type,
            addr,
            mps,
            interval,
            i,
            r->Ok_0,
        );
    }
}

/// The same for an OUT endpoint by its own operation.
pub proof fn law_out_endpoints_are_allocated<const N: usize>(
    driver: &mut Driver<N>,
    state: &mut State<N>,
    ep_type: EndpointType,
    addr: Option<EndpointAddress>,
    mps: u16,
    interval: u8,
    r: Result<Endpoint<Out>, EndpointAllocError>,
)
    requires
        call_ensures(
            Driver::<N>::alloc_endpoint_out,
            (driver, state, ep_type, addr, mps, interval),
            r,
        ),
        old(driver).wf(*old(state)),
    ensures
        r is Ok <==> space_is_there(*old(driver), Direction::Out, mps) && slot_is_there(
            old(driver).ep_out@,
            old(driver).instance.endpoint_count as int,
            ep_type,
            addr,
        ),
        r is Err ==> *final(driver) == *old(driver) && *final(state) == *old(state),
        r is Ok ==> endpoint_is_added(
            *old(driver),
            *final(driver),
            *old(state),
            *final(state),
            ep_type,
            addr,
            mps,
            interval,
            r->Ok_0,
        ),
{
    lemma_room(*old(driver), Direction::Out, ep_type, addr, mps);
    if r is Ok {
        let i = choose|i: int| #[trigger]
            old(driver).allocates::<Out>(
                *old(state),
                *final(driver),
                *final(state),
                ep_type,
                addr,
                mps,
                interval,
                i,
                r->Ok_0,
            );
        lemma_added(
            *old(driver),
            *final(driver),
            *old(state),
            *final(state),
            ep_type,
            addr,
            mps,
            interval,
            i,
            r->Ok_0,
        );
    }
}

/// A new driver has no endpoints and has given out nothing, whatever it was given.
pub proof fn law_new_driver_is_empty<const N: usize>(
    memory: PacketMemory,
    instance: OtgInstance,
    config: Config,
    r: Driver<N>,
    i: int,
)
    requires
        call_ensures(Driver::<N>::new, (memory, instance, config), r),
        0 <= i < N,
    ensures
        r.ep_in@[i] is None,
        r.ep_out@[i] is None,
        r.ep_out_buffer_offset == 0,
        r.ep_out_buffer == memory,
        r.instance == instance,
        r.config == config,
{
}

/// The FIFO words that are given out are the extra ones and those of all endpoints.
pub proof fn law_allocated_words_are_counted<const N: usize>(driver: Driver<N>, r: u16)
    requires
        call_ensures(Driver::<N>::allocated_fifo_words, (&driver,), r),
        driver.allocated_words() <= u16::MAX,
    ensures
        r == driver.instance.extra_rx_fifo_words + total_words(driver.ep_out@) + total_words(
            driver.ep_in@,
        ),
{
}

/// A driver can be started exactly where both endpoints 0 are there and free, and there is packet
/// memory and FIFO space for them.
pub proof fn law_starting_is_tested<const N: usize>(driver: Driver<N>, mps: u16, r: bool)
    requires
        call_ensures(Driver::<N>::can_start, (&driver, mps), r),
        driver.allocated_words() <= u16::MAX,
    ensures
        r <==> {
            &&& driver.instance.endpoint_count > 0
            &&& driver.ep_in@[0] is None
            &&& driver.ep_out@[0] is None
            &&& driver.ep_out_buffer_offset + mps <= driver.ep_out_buffer.len
            &&& fifo_share(Direction::Out, mps) + fifo_share(Direction::In, mps)
                + driver.instance.extra_rx_fifo_words + total_words(driver.ep_out@) + total_words(
                driver.ep_in@,
            ) <= driver.instance.fifo_depth_words
        },
{
}

/// Starting puts a control endpoint of the size asked for into slot 0 of both tables and leaves
/// every other endpoint as it is; the pipe's endpoints are these two, and OUT endpoint 0 has the
/// next part of the packet memory. The bus has not been initialized yet.
pub proof fn law_starting_adds_the_control_pipe<const N: usize>(
    driver: Driver<N>,
    state: &mut State<N>,
    mps: u16,
    r: (Bus<N>, ControlPipe),
)
    requires
        call_ensures(Driver::<N>::start, (driver, state, mps), r),
        driver.wf(*old(state)),
        driver.startable(mps),
    ensures
        r.0.config == driver.config,
        r.0.instance == driver.instance,
        !r.0.inited,
        slot_is_filled(
            driver.ep_in@,
            r.0.ep_in@,
            0,
            Direction::In,
            EndpointType::Control,
            mps,
        ),
        slot_is_filled(
            driver.ep_out@,
            r.0.ep_out@,
            0,
            Direction::Out,
            EndpointType::Control,
            mps,
        ),
        r.1.max_packet_size == mps,
        r.1.ep_in.info.addr.byte == 128,
        r.1.ep_out.info.addr.byte == 0,
        r.1.ep_in.info.ep_type is Control,
        r.1.ep_out.info.ep_type is Control,
        r.1.ep_in.info.max_packet_size == mps,
        r.1.ep_out.info.max_packet_size == mps,
        r.1.ep_in.dma_enable == (driver.instance.features.dma && driver.config.dma_enable),
        r.1.ep_out.dma_enable == (driver.instance.features.dma && driver.config.dma_enable),
        final(state).ep_states@[0].out_buffer.offset == driver.ep_out_buffer_offset,
        final(state).ep_states@[0].out_buffer.len == mps,
        final(state).ep_states@[0].out_buffer.addr == driver.ep_out_buffer.addr
            + driver.ep_out_buffer_offset,
        final(state).ep_states@[0].out_size == old(state).ep_states@[0].out_size,
        forall|j: int|
            0 < j < N ==> #[trigger] final(state).ep_states@[j] == old(state).ep_states@[j],
        final(state).cp_state == old(state).cp_state,
        final(state).dma_enabled == old(state).dma_enabled,
{
}

} // verus!
