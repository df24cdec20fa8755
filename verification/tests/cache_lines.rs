use synopsys_otg::cache::{
    align_range, dcache_clean_invalidate_range, dcache_clean_range, dcache_invalidate_range, CacheOp,
};

#[test]
fn ranges_grow_to_whole_lines() {
    assert_eq!(align_range(0, 0), (0, 0));
    assert_eq!(align_range(0x40, 0x20), (0x40, 0x60));
    assert_eq!(align_range(0x41, 0x20), (0x40, 0x80));
    assert_eq!(align_range(0x5f, 1), (0x40, 0x60));
    assert_eq!(align_range(0x5f, 2), (0x40, 0x80));
}

#[test]
fn every_line_is_invalidated_between_barriers() {
    let expected = vec![
        CacheOp::Dsb,
        CacheOp::Invalidate(0x2000_0020),
        CacheOp::Invalidate(0x2000_0040),
        CacheOp::Invalidate(0x2000_0060),
        CacheOp::Dsb,
        CacheOp::Isb,
    ];
    assert_eq!(dcache_invalidate_range(true, 0x2000_003f, 34), expected);
}

#[test]
fn cleaning_uses_its_own_registers() {
    assert_eq!(
        dcache_clean_range(true, 0x100, 32),
        vec![CacheOp::Dsb, CacheOp::Clean(0x100), CacheOp::Dsb, CacheOp::Isb]
    );
    assert_eq!(
        dcache_clean_invalidate_range(true, 0x100, 1),
        vec![CacheOp::Dsb, CacheOp::CleanInvalidate(0x100), CacheOp::Dsb, CacheOp::Isb]
    );
}

#[test]
fn nothing_is_done_without_bytes_or_cache() {
    assert_eq!(dcache_invalidate_range(true, 0x100, 0), vec![]);
    assert_eq!(dcache_invalidate_range(false, 0x100, 64), vec![]);
    assert_eq!(dcache_clean_range(true, 0x100, 0), vec![]);
    assert_eq!(dcache_clean_range(false, 0x100, 64), vec![]);
    assert_eq!(dcache_clean_invalidate_range(true, 0x100, 0), vec![]);
    assert_eq!(dcache_clean_invalidate_range(false, 0x100, 64), vec![]);
}
