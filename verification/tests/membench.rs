use membench::cursor::offsets;
use membench::format::pretty_time;
use membench::format::report_line;
use membench::format::to_decimal;
use membench::region::mmap_failure_hint;
use membench::region::Advice;
use membench::region::RegionLayout;
use membench::region::PAGE_GRANULARITY;
use membench::runner::stress;
use membench::runner::Config;

#[test]
fn offsets_stay_in_bounds() {
    for &(len, stride) in &[(7usize, 3usize), (10, 4), (5, 0), (6, 6), (3, 1000)] {
        for off in offsets(len, stride, 50) {
            assert!(off < len);
        }
    }
}

#[test]
fn offsets_length_matches_request() {
    assert_eq!(offsets(10, 4, 0).len(), 0);
    assert_eq!(offsets(10, 4, 25).len(), 25);
    assert_eq!(offsets(1, 0, 13).len(), 13);
}

#[test]
fn stress_performs_exactly_the_requested_accesses() {
    let region = vec![0u8; 16];
    let (_nanos, count) = stress(&region, 5, 23);
    assert_eq!(count, 23);
    let (_nanos, count) = stress(&region, 0, 7);
    assert_eq!(count, 7);
}

#[test]
fn full_stride_degenerates_to_zero_stride() {
    let with_full = offsets(10, 10, 8);
    let with_zero = offsets(10, 0, 8);
    assert_eq!(with_full, with_zero);
    assert_eq!(with_zero, vec![0; 8]);
}

#[test]
fn wraparound_sequence_for_length_ten_stride_four() {
    assert_eq!(offsets(10, 4, 10), vec![0, 4, 8, 2, 6, 0, 4, 8, 2, 6]);
}

#[test]
fn one_byte_region_rounds_to_one_page() {
    let layout = RegionLayout::plan(1);
    assert_eq!(layout.logical_len, 1);
    assert_eq!(layout.mapped_len, PAGE_GRANULARITY);
    assert_eq!(layout.mapped_len, 2097152);
}

#[test]
fn exact_page_multiple_is_not_rounded() {
    let layout = RegionLayout::plan(PAGE_GRANULARITY);
    assert_eq!(layout.logical_len, PAGE_GRANULARITY);
    assert_eq!(layout.mapped_len, PAGE_GRANULARITY);
    let layout = RegionLayout::plan(PAGE_GRANULARITY + 1);
    assert_eq!(layout.logical_len, PAGE_GRANULARITY + 1);
    assert_eq!(layout.mapped_len, 2 * PAGE_GRANULARITY);
}

#[test]
fn pretty_time_picks_the_coarsest_readable_unit() {
    assert_eq!(pretty_time(15_000_000_000), "15.0 s");
    assert_eq!(pretty_time(1_500_000_000), "1.50 s");
    assert_eq!(pretty_time(15_000_000), "15 ms");
    assert_eq!(pretty_time(150_000), "150 μs");
    assert_eq!(pretty_time(50), "50 ns");
}

#[test]
fn pretty_time_unit_boundaries() {
    assert_eq!(pretty_time(10_000_000_000), "10.0 s");
    assert_eq!(pretty_time(9_999_999_999), "10.00 s");
    assert_eq!(pretty_time(1_000_000_000), "1.00 s");
    assert_eq!(pretty_time(999_999_999), "999 ms");
    assert_eq!(pretty_time(10_000_000), "10 ms");
    assert_eq!(pretty_time(9_999_999), "9999 μs");
    assert_eq!(pretty_time(100_000), "100 μs");
    assert_eq!(pretty_time(99_999), "99999 ns");
    assert_eq!(pretty_time(0), "0 ns");
}

#[test]
fn pretty_time_rounds_subsecond_digits_half_up() {
    assert_eq!(pretty_time(15_950_000_000), "16.0 s");
    assert_eq!(pretty_time(15_949_999_999), "15.9 s");
    assert_eq!(pretty_time(1_005_000_000), "1.01 s");
    assert_eq!(pretty_time(1_004_999_999), "1.00 s");
}

#[test]
fn decimal_rendering() {
    assert_eq!(to_decimal(0), "0");
    assert_eq!(to_decimal(9), "9");
    assert_eq!(to_decimal(10), "10");
    assert_eq!(to_decimal(1234567890), "1234567890");
    assert_eq!(to_decimal(100_000_000), "100000000");
}

#[test]
fn report_line_composes_count_and_duration() {
    let line = report_line(100, &pretty_time(15_000_000_000));
    assert_eq!(line, "100 accesses done in 15.0 s");
}

#[test]
fn advice_modes() {
    assert!(Advice::Huge.is_huge());
    assert!(!Advice::Normal.is_huge());
    assert_eq!(mmap_failure_hint(Advice::Normal), "");
    assert_eq!(
        mmap_failure_hint(Advice::Huge),
        "\n(what's the value of /proc/sys/vm/nr_hugepages?)"
    );
}

#[test]
fn config_keeps_caller_input() {
    let cfg = Config::new(100_000_000, 100_000_000, 4096, Advice::Normal, false);
    assert_eq!(cfg.size, 100_000_000);
    assert_eq!(cfg.samples, 100_000_000);
    assert_eq!(cfg.stride, 4096);
    assert_eq!(cfg.advice, Advice::Normal);
    assert!(!cfg.quiet);
}
