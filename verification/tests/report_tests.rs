use bump_alloc::BumpAllocator;
use bump_alloc::decimal_string;
use bump_alloc::report;

#[test]
fn decimal_rendering() {
    assert_eq!(decimal_string(0), "0");
    assert_eq!(decimal_string(7), "7");
    assert_eq!(decimal_string(10), "10");
    assert_eq!(decimal_string(42), "42");
    assert_eq!(decimal_string(108), "108");
    assert_eq!(decimal_string(4096), "4096");
    assert_eq!(decimal_string(usize::MAX), format!("{}", usize::MAX));
}

#[test]
fn report_text() {
    assert_eq!(report(108, 3987), "Bump allocator:\nused: 108\nfree: 3987\n");
    assert_eq!(report(0, 0), "Bump allocator:\nused: 0\nfree: 0\n");
}

#[test]
fn stats_report_after_allocations() {
    let mut a = BumpAllocator::new(4096, 4096);
    assert_eq!(a.allocate(100, 8), Ok(4096));
    let text = a.stats_report();
    // 108 bytes in use; 4095 - 108 left below the end address.
    assert_eq!(text, "Bump allocator:\nused: 108\nfree: 3987\n");
    assert_eq!(a.used_bytes(), 108);
    assert_eq!(a.free_bytes_left(), 3987);
}

#[test]
fn stats_report_when_fresh() {
    let a = BumpAllocator::new(4096, 4096);
    assert_eq!(a.stats_report(), "Bump allocator:\nused: 0\nfree: 4095\n");
}
