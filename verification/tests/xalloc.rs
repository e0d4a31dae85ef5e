use embeddedsw_rs::xalloc::XAllocator;

#[test]
fn size_that_fits_is_passed_on() {
    let allocator = XAllocator::new();
    assert_eq!(allocator.malloc_size(0), 0);
    assert_eq!(allocator.malloc_size(64), 64);
    assert_eq!(allocator.malloc_size(u32::MAX as usize), u32::MAX);
}

#[test]
fn size_is_cut_to_thirty_two_bits() {
    let allocator = XAllocator::new();
    let size: u64 = 0x1_0000_0040;
    if let Ok(size) = usize::try_from(size) {
        assert_eq!(allocator.malloc_size(size), 0x40);
    }
}
