use alt_bn128_bench::alt_bn128::{
    complete_call, SyscallAltBn128Addition, SyscallAltBn128Multiplication, SyscallAltBn128Pairing,
};
use alt_bn128_bench::benchmark::{decode_test_vector, ADDITION_INPUT, MULTIPLICATION_INPUT, PAIRING_INPUT};
use alt_bn128_bench::memory::{AccessType, MappingError, MemoryMapping};
use alt_bn128_bench::translate::{HostView, SyscallError};
use solana_sdk::alt_bn128::prelude::{alt_bn128_addition, alt_bn128_multiplication, alt_bn128_pairing};

/// Input at guest 0x100, a zeroed output area at guest 0x100 + input length.
fn region(input: &[u8], out_len: usize) -> MemoryMapping {
    let mut bytes = input.to_vec();
    bytes.extend(std::iter::repeat(0u8).take(out_len));
    MemoryMapping::new(bytes, 0x100, true)
}

#[test]
fn addition_round_trip_matches_direct_call() {
    let input = decode_test_vector(ADDITION_INPUT);
    assert_eq!(input.len(), 128);
    let mut m = region(&input, 64);
    let mut result = Err(SyscallError::UnalignedPointer);
    SyscallAltBn128Addition::new().call(0x100, 128, 0x100 + 128, 0, 0, &mut m, &mut result);
    assert_eq!(result, Ok(0));
    let expected = alt_bn128_addition(&input).unwrap();
    assert_eq!(expected.len(), 64);
    assert_eq!(&m.memory()[128..], &expected[..]);
    assert_eq!(&m.memory()[..128], &input[..]);
}

#[test]
fn multiplication_and_pairing_match_direct_calls() {
    let input = decode_test_vector(MULTIPLICATION_INPUT);
    let mut m = region(&input, 64);
    let mut result = Ok(7);
    SyscallAltBn128Multiplication::new().call(0x100, input.len() as u64, 0x100 + input.len() as u64, 0, 0, &mut m, &mut result);
    assert_eq!(result, Ok(0));
    assert_eq!(&m.memory()[input.len()..], &alt_bn128_multiplication(&input).unwrap()[..]);

    let input = decode_test_vector(PAIRING_INPUT);
    assert_eq!(input.len(), 384);
    let mut m = region(&input, 32);
    SyscallAltBn128Pairing::new().call(0x100, input.len() as u64, 0x100 + input.len() as u64, 0, 0, &mut m, &mut result);
    assert_eq!(result, Ok(0));
    let expected = alt_bn128_pairing(&input).unwrap();
    assert_eq!(&m.memory()[input.len()..], &expected[..]);
    assert_eq!(expected[31], 1);
}

#[test]
fn same_input_twice_gives_same_outcome() {
    let input = decode_test_vector(ADDITION_INPUT);
    let syscall = SyscallAltBn128Addition::new();
    let mut outcomes = Vec::new();
    for _ in 0..2 {
        let mut m = region(&input, 64);
        let mut result = Ok(99);
        syscall.call(0x100, 128, 0x100 + 128, 0, 0, &mut m, &mut result);
        outcomes.push((result, m.into_memory()));
    }
    assert_eq!(outcomes[0], outcomes[1]);
    assert_eq!(outcomes[0].0, Ok(0));
}

#[test]
fn oversized_multiplication_input_gives_status_and_writes_nothing() {
    let input = vec![7u8; 129];
    let mut m = region(&input, 64);
    let before = m.memory().clone();
    let mut result = Ok(0);
    SyscallAltBn128Multiplication::new().call(0x100, 129, 0x100 + 129, 0, 0, &mut m, &mut result);
    assert_eq!(result, Ok(1));
    assert_eq!(m.memory(), &before);
}

#[test]
fn point_off_the_curve_gives_positive_status() {
    let mut input = vec![0u8; 128];
    input[31] = 1;
    input[63] = 1;
    let mut m = region(&input, 64);
    let before = m.memory().clone();
    let mut result = Ok(0);
    SyscallAltBn128Addition::new().call(0x100, 128, 0x100 + 128, 0, 0, &mut m, &mut result);
    match result {
        Ok(code) => assert!(code >= 1),
        Err(e) => panic!("unexpected fatal error {:?}", e),
    }
    assert_eq!(m.memory(), &before);
}

#[test]
fn empty_multiplication_input_multiplies_the_zero_point() {
    let mut m = MemoryMapping::new(vec![0xAAu8; 64], 0, true);
    let mut result = Err(SyscallError::UnalignedPointer);
    SyscallAltBn128Multiplication::new().call(0, 0, 0, 0, 0, &mut m, &mut result);
    assert_eq!(result, Ok(0));
    assert_eq!(m.memory(), &alt_bn128_multiplication(&[]).unwrap());
}

#[test]
fn untranslatable_input_is_fatal_and_writes_nothing() {
    let input = decode_test_vector(ADDITION_INPUT);
    let mut m = region(&input, 64);
    let before = m.memory().clone();
    let mut result = Ok(0);
    SyscallAltBn128Addition::new().call(0x10, 128, 0x100 + 128, 0, 0, &mut m, &mut result);
    assert_eq!(
        result,
        Err(SyscallError::Mapping(MappingError::AccessViolation {
            access_type: AccessType::Load,
            vm_addr: 0x10,
            len: 128
        }))
    );
    assert_eq!(m.memory(), &before);
}

#[test]
fn output_range_too_short_is_fatal() {
    let input = decode_test_vector(ADDITION_INPUT);
    let mut m = region(&input, 10);
    let mut result = Ok(0);
    SyscallAltBn128Addition::new().call(0x100, 128, 0x100 + 128, 0, 0, &mut m, &mut result);
    assert_eq!(
        result,
        Err(SyscallError::Mapping(MappingError::AccessViolation {
            access_type: AccessType::Store,
            vm_addr: 0x100 + 128,
            len: 64
        }))
    );
}

#[test]
fn read_only_region_refuses_the_output() {
    let input = decode_test_vector(ADDITION_INPUT);
    let mut bytes = input.clone();
    bytes.extend([0u8; 64]);
    let mut m = MemoryMapping::new(bytes, 0, false);
    let mut result = Ok(0);
    SyscallAltBn128Addition::new().call(0, 128, 128, 0, 0, &mut m, &mut result);
    assert_eq!(result, Err(SyscallError::Mapping(MappingError::WriteProtected { vm_addr: 128, len: 64 })));
}

#[test]
fn completion_of_each_curve_outcome() {
    let view = HostView { host_addr: 2, len: 3, byte_len: 3 };
    let mut m = MemoryMapping::new(vec![0u8; 6], 0, true);
    assert_eq!(complete_call(Err(2), 3, view, &mut m), 2);
    assert_eq!(m.memory(), &vec![0u8; 6]);
    assert_eq!(complete_call(Ok(vec![1, 2]), 3, view, &mut m), 3);
    assert_eq!(m.memory(), &vec![0u8; 6]);
    assert_eq!(complete_call(Ok(vec![4, 5, 6]), 3, view, &mut m), 0);
    assert_eq!(m.memory(), &vec![0, 0, 4, 5, 6, 0]);
}
