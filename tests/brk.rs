use ralloc_shim::align::{align_up, COMMIT_GRANULE};
use ralloc_shim::brk::brk;
use ralloc_shim::cursor::{BreakCursor, Step};
use ralloc_shim::region::{HeapStrategy, Region};

fn region_1000() -> Region {
    Region::new(0x1000, 0x2000).unwrap()
}

fn fixed(region: Region) -> Option<HeapStrategy> {
    Some(HeapStrategy::FixedRegion(region))
}

#[test]
fn region_scenario_grow_then_refuse() {
    let region = region_1000();
    let mut c = BreakCursor::in_region(region);
    assert_eq!(brk(fixed(region), &mut c, 0x1000), Step::Report(0x1000));
    assert_eq!(c.offset(), 0);
    assert_eq!(brk(fixed(region), &mut c, 0x1800), Step::Report(0x1800));
    assert_eq!(c.offset(), 0x800);
    assert_eq!(brk(fixed(region), &mut c, 0x3000), Step::Report(0x1800));
    assert_eq!(c.offset(), 0x800);
}

#[test]
fn region_scenario_below_base_on_fresh_cursor() {
    let region = region_1000();
    let mut c = BreakCursor::in_region(region);
    assert_eq!(brk(fixed(region), &mut c, 0x0), Step::Report(0x1000));
    assert_eq!(c.offset(), 0);
}

#[test]
fn region_below_base_keeps_grown_boundary() {
    let region = region_1000();
    let mut c = BreakCursor::in_region(region);
    assert_eq!(c.move_in_region(region, 0x2000), 0x2000);
    assert_eq!(c.move_in_region(region, 0xfff), 0x2000);
    assert_eq!(c.offset(), 0x1000);
}

#[test]
fn region_last_address_accepted_end_refused() {
    let region = region_1000();
    let mut c = BreakCursor::in_region(region);
    assert_eq!(c.move_in_region(region, 0x2fff), 0x2fff);
    assert_eq!(c.offset(), 0x1fff);
    assert_eq!(c.move_in_region(region, 0x3000), 0x2fff);
    assert_eq!(c.move_in_region(region, u64::MAX), 0x2fff);
    assert_eq!(c.offset(), 0x1fff);
}

#[test]
fn region_shrink_is_accepted() {
    let region = region_1000();
    let mut c = BreakCursor::in_region(region);
    assert_eq!(c.move_in_region(region, 0x2800), 0x2800);
    assert_eq!(c.move_in_region(region, 0x1100), 0x1100);
    assert_eq!(c.offset(), 0x100);
}

#[test]
fn region_current_boundary_is_idempotent() {
    let region = region_1000();
    let mut c = BreakCursor::in_region(region);
    c.move_in_region(region, 0x1800);
    let before = c;
    let current = c.boundary_addr();
    assert_eq!(brk(fixed(region), &mut c, current), Step::Report(0x1800));
    assert_eq!(c, before);
}

#[test]
fn region_new_rejects_unaddressable_end() {
    assert_eq!(Region::new(u64::MAX, 1), None);
    assert_eq!(Region::new(u64::MAX - 1, 1), Some(Region { base: u64::MAX - 1, length: 1 }));
}

#[test]
fn unresolved_strategy_reports_null() {
    let mut c = BreakCursor::new();
    assert_eq!(brk(None, &mut c, 0x5000), Step::Report(0));
    assert_eq!(c, BreakCursor::new());
}

#[test]
fn align_up_rounds_to_granule() {
    assert_eq!(align_up(0x1234, COMMIT_GRANULE), Some(0x200000));
    assert_eq!(align_up(0, COMMIT_GRANULE), Some(0));
    assert_eq!(align_up(0x200000, COMMIT_GRANULE), Some(0x200000));
    assert_eq!(align_up(0x200001, COMMIT_GRANULE), Some(0x400000));
    assert_eq!(align_up(7, 3), Some(9));
    assert_eq!(align_up(u64::MAX, COMMIT_GRANULE), None);
    assert_eq!(align_up(u64::MAX - 0x1fffff, COMMIT_GRANULE), Some(u64::MAX - 0x1fffff));
}

#[test]
fn kernel_scenario_commit_rounded_report_exact() {
    let base: u64 = 0x400000000;
    let requested = base + 0x1234;
    let mut c = BreakCursor::new();
    assert_eq!(brk(Some(HeapStrategy::KernelNegotiated), &mut c, requested), Step::QueryBase);
    let step = c.with_base(requested, Some(base));
    assert_eq!(step, Step::Commit { base, size: 0x200000 });
    assert_eq!(c.committed(requested, base, true), requested);
    assert_eq!(c.offset(), 0x1234);
    assert_eq!(c.base(), Some(base));
    assert_eq!(c.boundary_addr(), requested);
}

#[test]
fn kernel_commit_failure_keeps_boundary() {
    let base: u64 = 0x400000000;
    let mut c = BreakCursor::resume(Some(base), 0x1234).unwrap();
    let before = c;
    let requested = base + 0x300000;
    assert_eq!(c.with_base(requested, Some(base)), Step::Commit { base, size: 0x400000 });
    assert_eq!(c.committed(requested, base, false), base + 0x1234);
    assert_eq!(c, before);
}

#[test]
fn kernel_commit_failure_on_fresh_cursor_reports_base() {
    let base: u64 = 0x400000000;
    let mut c = BreakCursor::new();
    assert_eq!(c.committed(base + 0x10, base, false), base);
    assert_eq!(c, BreakCursor::new());
}

#[test]
fn kernel_query_failure_reports_published_boundary() {
    let base: u64 = 0x400000000;
    let c = BreakCursor::resume(Some(base), 0x800).unwrap();
    assert_eq!(c.with_base(base + 0x5000, None), Step::Report(base + 0x800));
    assert_eq!(BreakCursor::new().with_base(base, None), Step::Report(0));
}

#[test]
fn kernel_below_base_is_clamped() {
    let base: u64 = 0x400000000;
    let c = BreakCursor::resume(Some(base), 0x800).unwrap();
    assert_eq!(c.with_base(0, Some(base)), Step::Report(base + 0x800));
    assert_eq!(BreakCursor::new().with_base(0, Some(base)), Step::Report(base));
}

#[test]
fn kernel_current_boundary_is_idempotent() {
    let base: u64 = 0x400000000;
    let mut c = BreakCursor::resume(Some(base), 0x800).unwrap();
    let before = c;
    let step = brk(Some(HeapStrategy::KernelNegotiated), &mut c, base + 0x800);
    assert_eq!(step, Step::Report(base + 0x800));
    assert_eq!(c, before);
    assert_eq!(c.with_base(base + 0x800, Some(base)), Step::Report(base + 0x800));
    assert_eq!(BreakCursor::new().with_base(base, Some(base)), Step::Report(base));
}

#[test]
fn kernel_exact_granule_is_not_padded() {
    let base: u64 = 0x400000000;
    let c = BreakCursor::new();
    assert_eq!(c.with_base(base + 0x400000, Some(base)), Step::Commit { base, size: 0x400000 });
}

#[test]
fn kernel_unroundable_size_is_refused() {
    let c = BreakCursor::new();
    assert_eq!(c.with_base(u64::MAX, Some(0x1000)), Step::Report(0x1000));
}

#[test]
fn kernel_shrink_commits_smaller_size() {
    let base: u64 = 0x400000000;
    let mut c = BreakCursor::resume(Some(base), 0x500000).unwrap();
    let requested = base + 0x100;
    assert_eq!(c.with_base(requested, Some(base)), Step::Commit { base, size: 0x200000 });
    assert_eq!(c.committed(requested, base, true), requested);
    assert_eq!(c.offset(), 0x100);
}

#[test]
fn resume_rejects_inconsistent_state() {
    assert_eq!(BreakCursor::resume(None, 1), None);
    assert_eq!(BreakCursor::resume(Some(u64::MAX), 1), None);
    assert_eq!(BreakCursor::resume(None, 0), Some(BreakCursor::new()));
}

#[test]
fn kernel_below_moved_base_reports_new_base_plus_offset() {
    let mut c = BreakCursor::resume(Some(0x1000), 0x10).unwrap();
    assert_eq!(c.with_base(0x500, Some(0x2000)), Step::Report(0x2010));
    let before = c;
    assert_eq!(c.with_base(0, Some(u64::MAX - 4)), Step::Report(u64::MAX - 4));
    assert_eq!(c.committed(0x2100, 0x2000, false), 0x1010);
    assert_eq!(c, before);
    c = BreakCursor::resume(Some(0x1000), 0x10).unwrap();
    assert_eq!(brk(Some(HeapStrategy::KernelNegotiated), &mut c, 0x500), Step::QueryBase);
}
