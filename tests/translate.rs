use alt_bn128_bench::memory::{AccessType, MappingError, MemoryMapping};
use alt_bn128_bench::translate::{
    translate_slice, translate_slice_inner, translate_slice_mut, HostView, SyscallError,
};

fn empty() -> HostView {
    HostView { host_addr: 0, len: 0, byte_len: 0 }
}

#[test]
fn empty_request_gives_empty_view_in_every_mode() {
    let nothing = MemoryMapping::new(Vec::new(), 0, false);
    for access in [AccessType::Load, AccessType::Store] {
        for enforce in [false, true] {
            assert_eq!(translate_slice_inner::<u64>(&nothing, access, 12345, 0, enforce), Ok(empty()));
            assert_eq!(translate_slice_inner::<u64>(&nothing, access, 3, 0, enforce), Ok(empty()));
        }
    }
}

#[test]
fn in_bounds_view_has_exact_byte_length() {
    let m = MemoryMapping::new(vec![0u8; 64], 0, true);
    assert_eq!(
        translate_slice::<u64>(&m, 8, 4, false),
        Ok(HostView { host_addr: 8, len: 4, byte_len: 32 })
    );
    assert_eq!(
        translate_slice_mut::<u32>(&m, 0, 16, true),
        Ok(HostView { host_addr: 0, len: 16, byte_len: 64 })
    );
    assert_eq!(
        translate_slice::<u8>(&m, 63, 1, true),
        Ok(HostView { host_addr: 63, len: 1, byte_len: 1 })
    );
}

#[test]
fn guest_offset_is_subtracted() {
    let m = MemoryMapping::new(vec![0u8; 32], 0x1000, false);
    assert_eq!(
        translate_slice::<u8>(&m, 0x1010, 16, true),
        Ok(HostView { host_addr: 16, len: 16, byte_len: 16 })
    );
}

#[test]
fn misaligned_guest_address_fails_before_mapping() {
    let nothing = MemoryMapping::new(Vec::new(), 0, false);
    assert_eq!(translate_slice::<u64>(&nothing, 3, 1, false), Err(SyscallError::UnalignedPointer));
    assert_eq!(translate_slice_mut::<u32>(&nothing, 6, 2, false), Err(SyscallError::UnalignedPointer));
}

#[test]
fn host_alignment_is_checked_after_mapping() {
    let m = MemoryMapping::new(vec![0u8; 16], 1, true);
    assert_eq!(
        translate_slice::<u64>(&m, 1, 1, true),
        Ok(HostView { host_addr: 0, len: 1, byte_len: 8 })
    );
    assert_eq!(translate_slice::<u64>(&m, 2, 1, true), Err(SyscallError::UnalignedPointer));
    assert_eq!(translate_slice::<u64>(&m, 1, 1, false), Err(SyscallError::UnalignedPointer));
}

#[test]
fn out_of_bounds_range_is_refused_by_mapping() {
    let m = MemoryMapping::new(vec![0u8; 16], 0, true);
    assert_eq!(
        translate_slice::<u8>(&m, 10, 7, true),
        Err(SyscallError::Mapping(MappingError::AccessViolation {
            access_type: AccessType::Load,
            vm_addr: 10,
            len: 7
        }))
    );
}

#[test]
fn store_into_read_only_region_is_refused() {
    let m = MemoryMapping::new(vec![0u8; 16], 0, false);
    assert_eq!(
        translate_slice_mut::<u8>(&m, 0, 4, true),
        Err(SyscallError::Mapping(MappingError::WriteProtected { vm_addr: 0, len: 4 }))
    );
    assert!(translate_slice::<u8>(&m, 0, 4, true).is_ok());
}

#[test]
fn overflowing_length_saturates_and_is_refused() {
    let m = MemoryMapping::new(vec![0u8; 16], 0, true);
    assert_eq!(
        translate_slice::<u64>(&m, 0, u64::MAX / 2, true),
        Err(SyscallError::Mapping(MappingError::AccessViolation {
            access_type: AccessType::Load,
            vm_addr: 0,
            len: u64::MAX
        }))
    );
}

#[test]
fn map_load_and_store_round_trip() {
    let mut m = MemoryMapping::new(vec![1u8, 2, 3, 4, 5], 100, true);
    assert_eq!(m.map(AccessType::Store, 101, 3), Ok(1));
    assert_eq!(m.load(1, 3), vec![2, 3, 4]);
    m.store(2, &vec![9, 9]);
    assert_eq!(m.memory(), &vec![1, 2, 9, 9, 5]);
    assert_eq!(m.into_memory(), vec![1, 2, 9, 9, 5]);
}
