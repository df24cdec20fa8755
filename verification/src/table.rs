//! The tables of allocated endpoints.
use crate::fifo::word_count;
use crate::registers::Eptyp;
use crate::types::{Direction, EndpointType};
use vstd::prelude::*;

verus! {

/// What is kept of an allocated endpoint.
#[derive(Copy, Clone, Debug, PartialEq, Eq, Structural)]
pub struct EndpointData {
    /// Transfer type.
    pub ep_type: EndpointType,
    /// Maximum packet size, in bytes.
    pub max_packet_size: u16,
    /// Words of FIFO that are set aside for the endpoint.
    pub fifo_size_words: u16,
}

/// FIFO words that an endpoint takes: as many as its largest packet needs, and no less than the
/// 16 words that INEPTXFD requires for an IN endpoint.
pub open spec fn words_needed(dir: Direction, max_packet_size: u16) -> int {
    let words = word_count(max_packet_size as int);
    if dir is In && words < 16 {
        16
    } else {
        words
    }
}

/// FIFO words of one slot of a table.
pub open spec fn slot_words(slot: Option<EndpointData>) -> int {
    match slot {
        Some(ep) => ep.fifo_size_words as int,
        None => 0,
    }
}

/// FIFO words of a whole table.
pub open spec fn total_words(eps: Seq<Option<EndpointData>>) -> int
    decreases eps.len(),
{
    if eps.len() == 0 {
        0
    } else {
        total_words(eps.drop_last()) + slot_words(eps.last())
    }
}

/// Largest packet of one slot of a table, in bytes.
pub open spec fn slot_bytes(slot: Option<EndpointData>) -> int {
    match slot {
        Some(ep) => ep.max_packet_size as int,
        None => 0,
    }
}

/// Bytes of the largest packets of all endpoints of a table.
pub open spec fn total_bytes(eps: Seq<Option<EndpointData>>) -> int
    decreases eps.len(),
{
    if eps.len() == 0 {
        0
    } else {
        total_bytes(eps.drop_last()) + slot_bytes(eps.last())
    }
}

/// Filling a free slot adds the largest packet of the new endpoint to the table.
pub proof fn lemma_total_bytes_update(eps: Seq<Option<EndpointData>>, i: int, ep: EndpointData)
    requires
        0 <= i < eps.len(),
        eps[i] is None,
    ensures
        total_bytes(eps.update(i, Some(ep))) == total_bytes(eps) + ep.max_packet_size,
    decreases eps.len(),
{
    let after = eps.update(i, Some(ep));
    if i == eps.len() - 1 {
        assert(after.drop_last() =~= eps.drop_last());
    } else {
        lemma_total_bytes_update(eps.drop_last(), i, ep);
        assert(after.drop_last() =~= eps.drop_last().update(i, Some(ep)));
    }
}

/// An empty table has no packets.
pub proof fn lemma_total_bytes_empty(eps: Seq<Option<EndpointData>>)
    requires
        forall|i: int| 0 <= i < eps.len() ==> (#[trigger] eps[i]) is None,
    ensures
        total_bytes(eps) == 0,
    decreases eps.len(),
{
    if eps.len() > 0 {
        lemma_total_bytes_empty(eps.drop_last());
    }
}

/// Whether a table has endpoints only below `count`, each with the FIFO words that it needs, and
/// nothing but a control endpoint at 0.
pub open spec fn table_ok(eps: Seq<Option<EndpointData>>, dir: Direction, count: int) -> bool {
    &&& eps.len() > 0 ==> (eps[0] matches Some(ep) ==> ep.ep_type is Control)
    &&& forall|i: int| count <= i < eps.len() ==> (#[trigger] eps[i]) is None
    &&& forall|i: int|
        #![trigger eps[i]]
        0 <= i < eps.len() ==> (eps[i] matches Some(ep) ==> ep.fifo_size_words == words_needed(
            dir,
            ep.max_packet_size,
        ))
}

/// The words of a table are not negative, and grow with its length.
pub proof fn lemma_total_words_monotonic(eps: Seq<Option<EndpointData>>, n: int)
    requires
        0 <= n <= eps.len(),
    ensures
        0 <= total_words(eps.take(n)) <= total_words(eps),
    decreases eps.len(),
{
    if n == eps.len() {
        assert(eps.take(n) =~= eps);
        if n > 0 {
            lemma_total_words_monotonic(eps.drop_last(), n - 1);
            assert(eps.drop_last().take(n - 1) =~= eps.drop_last());
        }
    } else {
        lemma_total_words_monotonic(eps.drop_last(), n);
        assert(eps.drop_last().take(n) =~= eps.take(n));
    }
}

/// One more slot adds its words.
pub proof fn lemma_total_words_step(eps: Seq<Option<EndpointData>>, n: int)
    requires
        0 <= n < eps.len(),
    ensures
        total_words(eps.take(n + 1)) == total_words(eps.take(n)) + slot_words(eps[n]),
{
    assert(eps.take(n + 1).drop_last() =~= eps.take(n));
}

/// Filling a free slot adds the words of the new endpoint to the table.
pub proof fn lemma_total_words_update(eps: Seq<Option<EndpointData>>, i: int, ep: EndpointData)
    requires
        0 <= i < eps.len(),
        eps[i] is None,
    ensures
        total_words(eps.update(i, Some(ep))) == total_words(eps) + ep.fifo_size_words,
    decreases eps.len(),
{
    let after = eps.update(i, Some(ep));
    if i == eps.len() - 1 {
        assert(after.drop_last() =~= eps.drop_last());
    } else {
        lemma_total_words_update(eps.drop_last(), i, ep);
        assert(after.drop_last() =~= eps.drop_last().update(i, Some(ep)));
    }
}

/// An empty table has no words.
pub proof fn lemma_total_words_empty(eps: Seq<Option<EndpointData>>)
    requires
        forall|i: int| 0 <= i < eps.len() ==> (#[trigger] eps[i]) is None,
    ensures
        total_words(eps) == 0,
    decreases eps.len(),
{
    if eps.len() > 0 {
        lemma_total_words_empty(eps.drop_last());
    }
}

/// The value of EPTYP for a transfer type.
pub open spec fn eptyp_of(ep_type: EndpointType) -> Eptyp {
    match ep_type {
        EndpointType::Control => Eptyp::Control,
        EndpointType::Isochronous => Eptyp::Isochronous,
        EndpointType::Bulk => Eptyp::Bulk,
        EndpointType::Interrupt => Eptyp::Interrupt,
    }
}

/// Translates a transfer type into the value of EPTYP.
pub fn to_eptyp(ep_type: EndpointType) -> (r: Eptyp)
    ensures
        r == eptyp_of(ep_type),
{
    match ep_type {
        EndpointType::Control => Eptyp::Control,
        EndpointType::Isochronous => Eptyp::Isochronous,
        EndpointType::Bulk => Eptyp::Bulk,
        EndpointType::Interrupt => Eptyp::Interrupt,
    }
}

/// Calculates the total allocated FIFO size in words.
pub fn ep_fifo_size(eps: &[Option<EndpointData>]) -> (r: u16)
    requires
        total_words(eps@) <= u16::MAX,
    ensures
        r == total_words(eps@),
{
    let mut sum: u16 = 0;
    let mut i: usize = 0;
    proof {
        assert(eps@.take(0) =~= Seq::empty());
    }
    while i < eps.len()
        invariant
            0 <= i <= eps@.len(),
            total_words(eps@) <= u16::MAX,
            sum == total_words(eps@.take(i as int)),
        decreases eps@.len() - i,
    {
        proof {
            lemma_total_words_step(eps@, i as int);
            lemma_total_words_monotonic(eps@, i + 1);
        }
        let words: u16 = match eps[i] {
            Some(ep) => ep.fifo_size_words,
            None => 0,
        };
        sum = sum + words;
        i = i + 1;
    }
    proof {
        assert(eps@.take(eps@.len() as int) =~= eps@);
    }
    sum
}

/// Whether bit `i` of a mask is set.
pub open spec fn bit(mask: u16, i: int) -> bool {
    0 <= i < 16 && mask & (1u16 << (i as u16)) != 0
}

/// Setting one bit of a mask sets that bit and no other.
pub proof fn lemma_set_bit(mask: u16, n: u16)
    requires
        n < 16,
    ensures
        forall|i: int| #[trigger] bit(mask | (1u16 << n), i) == (bit(mask, i) || i == n),
{
    assert forall|i: int| #[trigger] bit(mask | (1u16 << n), i) == (bit(mask, i) || i == n) by {
        if 0 <= i < 16 {
            let k = i as u16;
            assert((mask | (1u16 << n)) & (1u16 << k) != 0 <==> (mask & (1u16 << k) != 0 || k == n))
                by (bit_vector)
                requires
                    n < 16,
                    k < 16,
            ;
        }
    }
}

/// Clearing one bit of a mask clears that bit and no other.
pub proof fn lemma_clear_bit(mask: u16, n: u16)
    requires
        n < 16,
    ensures
        forall|i: int| #[trigger] bit(mask & !(1u16 << n), i) == (bit(mask, i) && i != n),
{
    assert forall|i: int| #[trigger] bit(mask & !(1u16 << n), i) == (bit(mask, i) && i != n) by {
        if 0 <= i < 16 {
            let k = i as u16;
            assert((mask & !(1u16 << n)) & (1u16 << k) != 0 <==> (mask & (1u16 << k) != 0 && k
                != n)) by (bit_vector)
                requires
                    n < 16,
                    k < 16,
            ;
        }
    }
}

/// INEPTXFEM with the bit of one endpoint set or cleared.
pub open spec fn fifo_empty_mask_of(ineptxfem: u16, ep: int, enabled: bool) -> u16 {
    if enabled {
        ineptxfem | (1u16 << (ep as u16))
    } else {
        ineptxfem & !(1u16 << (ep as u16))
    }
}

/// Enables or disables the FIFO-empty interrupt of one endpoint in INEPTXFEM, and leaves those of
/// the others as they are.
pub fn fifo_empty_mask(ineptxfem: u16, ep: usize, enabled: bool) -> (r: u16)
    requires
        ep < 16,
    ensures
        r == fifo_empty_mask_of(ineptxfem, ep as int, enabled),
        forall|i: int|
            #[trigger] bit(r, i) == if i == ep {
                enabled
            } else {
                bit(ineptxfem, i)
            },
{
    proof {
        lemma_set_bit(ineptxfem, ep as u16);
        lemma_clear_bit(ineptxfem, ep as u16);
    }
    if enabled {
        ineptxfem | (1u16 << (ep as u16))
    } else {
        ineptxfem & !(1u16 << (ep as u16))
    }
}

/// A mask without a bit is zero.
pub proof fn lemma_no_bits(mask: u16)
    requires
        forall|i: int| 0 <= i < 16 ==> !#[trigger] bit(mask, i),
    ensures
        mask == 0,
{
    assert(!bit(mask, 0) && !bit(mask, 1) && !bit(mask, 2) && !bit(mask, 3));
    assert(!bit(mask, 4) && !bit(mask, 5) && !bit(mask, 6) && !bit(mask, 7));
    assert(!bit(mask, 8) && !bit(mask, 9) && !bit(mask, 10) && !bit(mask, 11));
    assert(!bit(mask, 12) && !bit(mask, 13) && !bit(mask, 14) && !bit(mask, 15));
    assert(mask == 0) by (bit_vector)
        requires
            mask & (1u16 << 0u16) == 0,
            mask & (1u16 << 1u16) == 0,
            mask & (1u16 << 2u16) == 0,
            mask & (1u16 << 3u16) == 0,
            mask & (1u16 << 4u16) == 0,
            mask & (1u16 << 5u16) == 0,
            mask & (1u16 << 6u16) == 0,
            mask & (1u16 << 7u16) == 0,
            mask & (1u16 << 8u16) == 0,
            mask & (1u16 << 9u16) == 0,
            mask & (1u16 << 10u16) == 0,
            mask & (1u16 << 11u16) == 0,
            mask & (1u16 << 12u16) == 0,
            mask & (1u16 << 13u16) == 0,
            mask & (1u16 << 14u16) == 0,
            mask & (1u16 << 15u16) == 0,
    ;
}

/// The bits of a mask determine it.
pub proof fn lemma_bits_determine_mask(a: u16, b: u16)
    requires
        forall|i: int| 0 <= i < 16 ==> #[trigger] bit(a, i) == bit(b, i),
    ensures
        a == b,
{
    assert forall|i: int| 0 <= i < 16 implies !#[trigger] bit(a ^ b, i) by {
        let k = i as u16;
        assert(bit(a, i) == bit(b, i));
        assert((a ^ b) & (1u16 << k) == 0) by (bit_vector)
            requires
                k < 16,
                (a & (1u16 << k) != 0) == (b & (1u16 << k) != 0),
        ;
    }
    lemma_no_bits(a ^ b);
    assert(a == b) by (bit_vector)
        requires
            a ^ b == 0,
    ;
}

/// The mask with one bit for each allocated endpoint of a table.
pub open spec fn irq_mask(eps: Seq<Option<EndpointData>>) -> u16
    decreases eps.len(),
{
    if eps.len() == 0 {
        0
    } else if eps.last() is Some {
        irq_mask(eps.drop_last()) | (1u16 << ((eps.len() - 1) as u16))
    } else {
        irq_mask(eps.drop_last())
    }
}

/// Whether every endpoint of a table has a bit in the interrupt mask.
pub open spec fn maskable(eps: Seq<Option<EndpointData>>) -> bool {
    forall|i: int| 16 <= i < eps.len() ==> (#[trigger] eps[i]) is None
}

/// An endpoint's interrupt is enabled exactly where the endpoint is allocated.
pub proof fn lemma_irq_mask_bits(eps: Seq<Option<EndpointData>>, i: int)
    requires
        maskable(eps),
    ensures
        bit(irq_mask(eps), i) <==> (0 <= i < eps.len() && eps[i] is Some),
    decreases eps.len(),
{
    if eps.len() == 0 {
        if 0 <= i < 16 {
            let k = i as u16;
            assert(0u16 & (1u16 << k) == 0) by (bit_vector);
        }
    } else {
        lemma_irq_mask_bits(eps.drop_last(), i);
        if eps.last() is Some {
            lemma_set_bit(irq_mask(eps.drop_last()), (eps.len() - 1) as u16);
        }
    }
}

/// Generates the interrupt mask for the allocated endpoints.
pub fn ep_irq_mask(eps: &[Option<EndpointData>]) -> (r: u16)
    requires
        maskable(eps@),
    ensures
        r == irq_mask(eps@),
        forall|i: int| #[trigger] bit(r, i) <==> (0 <= i < eps@.len() && eps@[i] is Some),
{
    let mut mask: u16 = 0;
    let mut index: usize = 0;
    proof {
        assert(eps@.take(0) =~= Seq::empty());
    }
    while index < eps.len()
        invariant
            0 <= index <= eps@.len(),
            maskable(eps@),
            mask == irq_mask(eps@.take(index as int)),
        decreases eps@.len() - index,
    {
        proof {
            assert(eps@.take(index + 1).drop_last() =~= eps@.take(index as int));
        }
        if eps[index].is_some() {
            mask = mask | (1u16 << (index as u16));
        }
        index = index + 1;
    }
    proof {
        assert(eps@.take(eps@.len() as int) =~= eps@);
        assert forall|i: int| #[trigger]
            bit(mask, i) <==> (0 <= i < eps@.len() && eps@[i] is Some) by {
            lemma_irq_mask_bits(eps@, i);
        }
    }
    mask
}

/// Whether endpoint 0 can have this maximum packet size.
pub open spec fn ep0_size_supported(max_packet_size: u16) -> bool {
    max_packet_size == 8 || max_packet_size == 16 || max_packet_size == 32 || max_packet_size == 64
}

/// The value of MPSIZ for endpoint 0, which uses special values.
pub open spec fn ep0_mpsiz_of(max_packet_size: u16) -> u16 {
    if max_packet_size == 8 {
        0b11
    } else if max_packet_size == 16 {
        0b10
    } else if max_packet_size == 32 {
        0b01
    } else {
        0b00
    }
}

/// Calculates the value of MPSIZ for endpoint 0, which uses special values.
pub fn ep0_mpsiz(max_packet_size: u16) -> (r: u16)
    requires
        ep0_size_supported(max_packet_size),
    ensures
        r == ep0_mpsiz_of(max_packet_size),
{
    match max_packet_size {
        8 => 0b11,
        16 => 0b10,
        32 => 0b01,
        _ => 0b00,
    }
}

} // verus!
