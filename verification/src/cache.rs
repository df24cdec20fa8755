//! Cache maintenance for the core's internal DMA engine.
//!
//! The engine reads and writes USB packets directly in system memory. With the Cortex-M7 data
//! cache on, a buffer has to be invalidated after the engine wrote it and cleaned before the
//! engine reads it. Without a data cache, or with the cache off, there is nothing to do.
use vstd::prelude::*;

verus! {

/// Data cache line size of the Cortex-M7.
pub const CACHE_LINE_SIZE: usize = 32;

/// One step of a cache maintenance sequence.
#[derive(Copy, Clone, Debug, PartialEq, Eq, Structural)]
pub enum CacheOp {
    /// Data synchronization barrier.
    Dsb,
    /// Instruction synchronization barrier.
    Isb,
    /// Invalidate the line at this address, by a write to DCIMVAC.
    Invalidate(u32),
    /// Clean the line at this address, by a write to DCCMVAC.
    Clean(u32),
    /// Clean and invalidate the line at this address, by a write to DCCIMVAC.
    CleanInvalidate(u32),
}

/// What is done to a line.
#[derive(Copy, Clone, Debug, PartialEq, Eq, Structural)]
enum Maintenance {
    Invalidate,
    Clean,
    CleanInvalidate,
}

/// The largest multiple of the line size that is not above `addr`.
pub open spec fn line_floor(addr: int) -> int {
    addr - addr % 32
}

/// The smallest multiple of the line size that is not below `addr`.
pub open spec fn line_ceil(addr: int) -> int {
    line_floor(addr + 31)
}

/// Number of lines that a range touches.
pub open spec fn line_count(start: int, len: int) -> nat {
    ((line_ceil(start + len) - line_floor(start)) / 32) as nat
}

/// The operations that maintain a range: between barriers, one operation for each line that the
/// range touches, in ascending order.
pub open spec fn maintenance(start: int, len: int, op: spec_fn(u32) -> CacheOp) -> Seq<CacheOp> {
    seq![CacheOp::Dsb] + Seq::new(
        line_count(start, len),
        |k: int| op((line_floor(start) + 32 * k) as u32),
    ) + seq![CacheOp::Dsb, CacheOp::Isb]
}

/// Whether the range and one line behind it lie in the address space.
pub open spec fn in_address_space(start: usize, len: usize) -> bool {
    start + len + 32 <= usize::MAX
}

/// Widens a range to whole cache lines.
pub fn align_range(start: usize, len: usize) -> (r: (usize, usize))
    requires
        in_address_space(start, len),
    ensures
        r.0 == line_floor(start as int),
        r.1 == line_ceil(start + len),
{
    let end: usize = start + len;
    let s: usize = start & !(CACHE_LINE_SIZE - 1);
    let e: usize = (end + CACHE_LINE_SIZE - 1) & !(CACHE_LINE_SIZE - 1);
    proof {
        let up: usize = (end + 31) as usize;
        assert(start & !31usize == start - start % 32) by (bit_vector);
        assert(up & !31usize == up - up % 32) by (bit_vector);
    }
    (s, e)
}

/// The operation on one line.
spec fn line_op(what: Maintenance, addr: u32) -> CacheOp {
    match what {
        Maintenance::Invalidate => CacheOp::Invalidate(addr),
        Maintenance::Clean => CacheOp::Clean(addr),
        Maintenance::CleanInvalidate => CacheOp::CleanInvalidate(addr),
    }
}

/// Walks the lines of a range.
fn maintain(start: usize, len: usize, what: Maintenance) -> (r: Vec<CacheOp>)
    requires
        in_address_space(start, len),
    ensures
        r@ == maintenance(start as int, len as int, |addr: u32| line_op(what, addr)),
{
    let mut ops: Vec<CacheOp> = Vec::new();
    ops.push(CacheOp::Dsb);
    let (first, end) = align_range(start, len);
    let mut addr: usize = first;
    let ghost count: int = line_count(start as int, len as int) as int;
    let ghost f = |k: int| line_op(what, (line_floor(start as int) + 32 * k) as u32);
    let ghost mut done: int = 0;
    while addr < end
        invariant
            addr == first + 32 * done,
            0 <= done <= count,
            end == first + 32 * count,
            first == line_floor(start as int),
            f == (|k: int| line_op(what, (line_floor(start as int) + 32 * k) as u32)),
            ops@ == seq![CacheOp::Dsb] + Seq::new(done as nat, f),
        decreases end - addr,
    {
        ops.push(
            match what {
                Maintenance::Invalidate => CacheOp::Invalidate(addr as u32),
                Maintenance::Clean => CacheOp::Clean(addr as u32),
                Maintenance::CleanInvalidate => CacheOp::CleanInvalidate(addr as u32),
            },
        );
        addr = addr + CACHE_LINE_SIZE;
        proof {
            done = done + 1;
            assert(ops@ == seq![CacheOp::Dsb] + Seq::new(done as nat, f));
        }
    }
    ops.push(CacheOp::Dsb);
    ops.push(CacheOp::Isb);
    proof {
        let op = |addr: u32| line_op(what, addr);
        assert(Seq::new(count as nat, f) == Seq::new(
            count as nat,
            |k: int| op((line_floor(start as int) + 32 * k) as u32),
        ));
        assert(ops@ == maintenance(start as int, len as int, op));
    }
    ops
}

/// Invalidates the data cache for a range, to be done after the engine wrote to memory and before
/// the processor reads it.
pub fn dcache_invalidate_range(dcache_enabled: bool, start: usize, len: usize) -> (r: Vec<CacheOp>)
    requires
        dcache_enabled && len != 0 ==> in_address_space(start, len),
    ensures
        r@ == if len == 0 || !dcache_enabled {
            Seq::empty()
        } else {
            maintenance(start as int, len as int, |addr: u32| CacheOp::Invalidate(addr))
        },
{
    if len == 0 || !dcache_enabled {
        return Vec::new();
    }
    let r = maintain(start, len, Maintenance::Invalidate);
    assert((|addr: u32| line_op(Maintenance::Invalidate, addr)) =~= (|addr: u32|
        CacheOp::Invalidate(addr)));
    r
}

/// Cleans the data cache for a range, to be done before the engine reads memory.
pub fn dcache_clean_range(dcache_enabled: bool, start: usize, len: usize) -> (r: Vec<CacheOp>)
    requires
        dcache_enabled && len != 0 ==> in_address_space(start, len),
    ensures
        r@ == if len == 0 || !dcache_enabled {
            Seq::empty()
        } else {
            maintenance(start as int, len as int, |addr: u32| CacheOp::Clean(addr))
        },
{
    if len == 0 || !dcache_enabled {
        return Vec::new();
    }
    let r = maintain(start, len, Maintenance::Clean);
    assert((|addr: u32| line_op(Maintenance::Clean, addr)) =~= (|addr: u32| CacheOp::Clean(addr)));
    r
}

/// Cleans and invalidates the data cache for a range.
pub fn dcache_clean_invalidate_range(dcache_enabled: bool, start: usize, len: usize) -> (r: Vec<
    CacheOp,
>)
    requires
        dcache_enabled && len != 0 ==> in_address_space(start, len),
    ensures
        r@ == if len == 0 || !dcache_enabled {
            Seq::empty()
        } else {
            maintenance(start as int, len as int, |addr: u32| CacheOp::CleanInvalidate(addr))
        },
{
    if len == 0 || !dcache_enabled {
        return Vec::new();
    }
    let r = maintain(start, len, Maintenance::CleanInvalidate);
    assert((|addr: u32| line_op(Maintenance::CleanInvalidate, addr)) =~= (|addr: u32|
        CacheOp::CleanInvalidate(addr)));
    r
}

/// The lines that are maintained cover every byte of the range, and each of them holds a byte of
/// the range: nothing of the range is missed, and no line beyond it is touched.
pub proof fn law_lines_cover_range(start: int, len: int, line: int)
    requires
        0 <= start,
        0 < len,
        line % 32 == 0,
    ensures
        (exists|k: int|
            0 <= k < line_count(start, len) && line == #[trigger] (line_floor(start) + 32 * k))
            <==> (exists|b: int| start <= b < start + len && line == #[trigger] line_floor(b)),
{
    let n = line_count(start, len) as int;
    assert(line_ceil(start + len) == line_floor(start) + 32 * n);
    if exists|k: int| 0 <= k < n && line == #[trigger] (line_floor(start) + 32 * k) {
        let b = if line < start {
            start
        } else {
            line
        };
        assert(start <= b < start + len);
        assert(line == line_floor(b));
    }
    if exists|b: int| start <= b < start + len && line == #[trigger] line_floor(b) {
        let b = choose|b: int| start <= b < start + len && line == #[trigger] line_floor(b);
        let k = (line - line_floor(start)) / 32;
        assert(line == line_floor(start) + 32 * k);
        assert(0 <= k < n);
    }
}

} // verus!
