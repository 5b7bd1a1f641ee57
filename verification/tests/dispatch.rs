use frame_pipeline::dispatch::dispatch_dim;

#[test]
fn dispatch_dim_exact_values() {
    // ceil(800 / 7) + 8 = 115 + 8
    assert_eq!(dispatch_dim(800), 123);
    // ceil(600 / 7) + 8 = 86 + 8
    assert_eq!(dispatch_dim(600), 94);
    // ceil(1024 / 7) + 8 = 147 + 8
    assert_eq!(dispatch_dim(1024), 155);
    // ceil(768 / 7) + 8 = 110 + 8
    assert_eq!(dispatch_dim(768), 118);
}

#[test]
fn dispatch_dim_smallest_spans() {
    assert_eq!(dispatch_dim(1), 9);
    assert_eq!(dispatch_dim(6), 9);
    assert_eq!(dispatch_dim(7), 9);
    assert_eq!(dispatch_dim(8), 10);
}

#[test]
fn dispatch_dim_largest_span() {
    // ceil(4294967295 / 7) + 8 = 613566757 + 8
    assert_eq!(dispatch_dim(u32::MAX), 613_566_765);
}

#[test]
fn dispatch_dim_over_coverage() {
    for pixels in [1u32, 6, 7, 8, 13, 14, 599, 600, 601, 800, 1023, 1024, 1025, 1920, 4096] {
        let groups = dispatch_dim(pixels) as u64;
        assert!(groups * 7 >= pixels as u64);
    }
}
