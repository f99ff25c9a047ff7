use rusty_d3d12::{
    align_to_multiple, constant_buffer_alignment, default_resource_alignment, ByteCount, CpuDescriptorHandle,
    GpuDescriptorHandle,
};

#[test]
fn align_rounds_up_to_power_of_two() {
    assert_eq!(align_to_multiple(5, 4), 8);
    assert_eq!(align_to_multiple(8, 4), 8);
    assert_eq!(align_to_multiple(0, 256), 0);
    assert_eq!(align_to_multiple(257, 256), 512);
    assert_eq!(align_to_multiple(1000, 65536), 65536);
}

#[test]
fn align_is_idempotent() {
    let once = align_to_multiple(300, 256);
    assert_eq!(align_to_multiple(once, 256), once);
}

#[test]
fn align_with_non_power_of_two_uses_mask() {
    // (10 + 2) & !2 == 12 & !2 == 12
    assert_eq!(align_to_multiple(10, 3), 12);
    // (11 + 2) & !2 == 13 & !2 == 13
    assert_eq!(align_to_multiple(11, 3), 13);
}

#[test]
fn byte_count_arithmetic() {
    assert_eq!(ByteCount(3) + ByteCount(4), ByteCount(7));
    let mut b = ByteCount(10);
    b += ByteCount(5);
    assert_eq!(b, ByteCount(15));
    assert_eq!(ByteCount(6) * 7u32, ByteCount(42));
    assert_eq!(7i32 * ByteCount(6), ByteCount(42));
    assert_eq!(ByteCount(42) / 5u8, ByteCount(8));
    assert_eq!(100usize / ByteCount(7), ByteCount(14));
}

#[test]
fn byte_count_conversions() {
    assert_eq!(ByteCount::from(12u8), ByteCount(12));
    assert_eq!(ByteCount::from(65535u16), ByteCount(65535));
    assert_eq!(ByteCount::from(-1i32), ByteCount(u64::MAX));
    let n: usize = ByteCount(4096).into();
    assert_eq!(n, 4096);
}

#[test]
fn byte_count_add_assign_wraps() {
    let mut b = ByteCount(u64::MAX);
    b += ByteCount(2);
    assert_eq!(b, ByteCount(1));
}

#[test]
fn cpu_handle_advance() {
    let h = CpuDescriptorHandle { hw_handle: 1000, handle_size: 32 };
    let a = h.advance(3);
    assert_eq!(a.hw_handle, 1096);
    assert_eq!(a.handle_size, 32);
    assert_eq!(h.advance(1).advance(2), h.advance(3));
    assert_eq!(h.advance(0), h);
}

#[test]
fn gpu_handle_advance() {
    let h = GpuDescriptorHandle { hw_handle: 0x1_0000_0000, handle_size: 64 };
    assert_eq!(h.advance(2).hw_handle, 0x1_0000_0080);
    assert_eq!(h.advance(5).advance(6), h.advance(11));
}

#[test]
fn placement_alignments() {
    assert_eq!(constant_buffer_alignment(), ByteCount(256));
    assert_eq!(default_resource_alignment(), ByteCount(65536));
    assert_eq!(align_to_multiple(100, constant_buffer_alignment().0), 256);
    assert_eq!(align_to_multiple(65537, default_resource_alignment().0), 131072);
}
