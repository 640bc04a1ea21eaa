//! Inputs of the benchmark: random buffers for the hash baseline and the fixed
//! test vectors of the curve operations, and one syscall run over one input.

use vstd::prelude::*;
use vstd::string::StringSliceAdditionalSpecFns;
use crate::alt_bn128::{
    addition_result, multiplication_result, pairing_result, syscall_outcome,
    SyscallAltBn128Addition, SyscallAltBn128Multiplication, SyscallAltBn128Pairing,
    ALT_BN128_ADDITION_OUTPUT_LEN, ALT_BN128_MULTIPLICATION_OUTPUT_LEN,
    ALT_BN128_PAIRING_OUTPUT_LEN,
};
use crate::cli::{Application, Bench};
use crate::memory::MemoryMapping;
use crate::translate::SyscallError;

verus! {

/// Significant digits of the timings the benchmark reports.
pub const PRECISION: usize = 4;

/// Two points whose sum the addition benchmark computes, in hex.
pub const ADDITION_INPUT: &'static str = "18b18acfb4c2c30276db5411368e7185b311dd124691610c5d3b74034e093dc9063c909c4720840cb5134cb9f59fa749755796819658d32efc0d288198f3726607c2b7f58a84bd6145f00c9c2bc0bb1a187f20ff2c92963a88019e7c6a014eed06614e20c147e940f2d70da3f74c9a17df361706a4485c742bd6788478fa17d7";

/// A point and a scalar that the multiplication benchmark multiplies, in hex.
pub const MULTIPLICATION_INPUT: &'static str = "2bd3e6d0f3b142924f5ca7b49ce5b9d54c4703d7ae5648e61d02268b1a0a9fb721611ce0a6af85915e2f1d70300909ce2e49dfad4a4619c8390cae66cefdb20400000000000000000000000000000000000000000000000011138ce750fa15c2";

/// The pairs whose pairing the pairing benchmark checks, in hex.
pub const PAIRING_INPUT: &'static str = "1c76476f4def4bb94541d57ebba1193381ffa7aa76ada664dd31c16024c43f593034dd2920f673e204fee2811c678745fc819b55d3e9d294e45c9b03a76aef41209dd15ebff5d46c4bd888e51a93cf99a7329636c63514396b4a452003a35bf704bf11ca01483bfa8b34b43561848d28905960114c8ac04049af4b6315a416782bb8324af6cfc93537a2ad1a445cfd0ca2a71acd7ac41fadbf933c2a51be344d120a2a4cf30c1bf9845f20c6fe39e07ea2cce61f0c9bb048165fe5e4de877550111e129f1cf1097710d41c4ac70fcdfa5ba2023c6ff1cbeac322de49d1b6df7c2032c61a830e3c17286de9462bf242fca2883585b93870a73853face6a6bf411198e9393920d483a7260bfb731fb5d25f1aa493335a9e71297e485b7aef312c21800deef121f1e76426a00665e5c4479674322d4f75edadd46debd5cd992f6ed090689d0585ff075ec9e99ad690c3395bc4b313370b38ef355acdadcd122975b12c85ea5db8c6deb4aab71808dcb408fe3d1e7690c43d37b4ce6cc0166fa7daa";

/// `b` is an ASCII hex digit, in either case.
pub open spec fn is_hex_digit(b: u8) -> bool {
    (48 <= b <= 57) || (97 <= b <= 102) || (65 <= b <= 70)
}

/// The value of the hex digit `b`.
pub open spec fn hex_value(b: u8) -> int {
    if 48 <= b <= 57 {
        b - 48
    } else if 97 <= b <= 102 {
        b - 87
    } else {
        b - 55
    }
}

/// `hex` is an even number of hex digits.
pub open spec fn valid_hex(hex: Seq<u8>) -> bool {
    hex.len() % 2 == 0 && forall|i: int| 0 <= i < hex.len() ==> is_hex_digit(#[trigger] hex[i])
}

/// The bytes that pairs of hex digits spell, the high digit first.
pub open spec fn hex_decode(hex: Seq<u8>) -> Seq<u8> {
    Seq::new(
        hex.len() / 2,
        |i: int| (hex_value(hex[2 * i]) * 16 + hex_value(hex[2 * i + 1])) as u8,
    )
}

/// The bytes of a test vector written in hex; none when the text is not hex.
pub open spec fn test_vector(hex: Seq<u8>) -> Seq<u8> {
    if valid_hex(hex) {
        hex_decode(hex)
    } else {
        Seq::empty()
    }
}

/// Relies on `rand::random::<u8>`: any byte, from the thread's generator.
#[verifier::external_body]
fn random_byte() -> u8 {
    rand::random::<u8>()
}

/// Relies on `array_bytes::hex2bytes_unchecked`, which turns each pair of hex
/// digits into one byte, high digit first; on digits alone it does not panic.
#[verifier::external_body]
fn hex_to_bytes(hex: &[u8]) -> (r: Vec<u8>)
    requires
        valid_hex(hex@),
    ensures
        r@ == hex_decode(hex@),
{
    array_bytes::hex2bytes_unchecked(hex)
}

/// Whether `hex` is an even number of hex digits.
pub fn is_valid_hex(hex: &[u8]) -> (r: bool)
    ensures
        r == valid_hex(hex@),
{
    if hex.len() % 2 != 0 {
        return false;
    }
    let mut i: usize = 0;
    while i < hex.len()
        invariant
            i <= hex@.len(),
            forall|j: int| 0 <= j < i ==> is_hex_digit(#[trigger] hex@[j]),
        decreases hex@.len() - i,
    {
        let b = hex[i];
        if !((48 <= b && b <= 57) || (97 <= b && b <= 102) || (65 <= b && b <= 70)) {
            return false;
        }
        i = i + 1;
    }
    true
}

/// The bytes of a test vector written in hex.
pub fn decode_test_vector(hex: &str) -> (r: Vec<u8>)
    ensures
        r@ == test_vector(hex.spec_bytes()),
{
    let bytes = hex.as_bytes();
    if is_valid_hex(bytes) {
        hex_to_bytes(bytes)
    } else {
        Vec::new()
    }
}

/// `count` copies of `input`.
pub fn repeat_buffer(input: &Vec<u8>, count: usize) -> (r: Vec<Vec<u8>>)
    ensures
        r@.len() == count,
        forall|i: int| 0 <= i < count ==> (#[trigger] r@[i])@ == input@,
{
    let mut buffers: Vec<Vec<u8>> = Vec::new();
    let mut n: usize = 0;
    while n < count
        invariant
            n <= count,
            buffers@.len() == n,
            forall|i: int| 0 <= i < n ==> (#[trigger] buffers@[i])@ == input@,
        decreases count - n,
    {
        let copy = input.clone();
        assert(copy@ =~= input@);
        buffers.push(copy);
        n = n + 1;
    }
    buffers
}

/// `count` buffers of `message_size` random bytes each.
pub fn generate_buffers(count: usize, message_size: usize) -> (r: Vec<Vec<u8>>)
    ensures
        r@.len() == count,
        forall|i: int| 0 <= i < count ==> (#[trigger] r@[i])@.len() == message_size,
{
    let mut buffers: Vec<Vec<u8>> = Vec::new();
    let mut n: usize = 0;
    while n < count
        invariant
            n <= count,
            buffers@.len() == n,
            forall|i: int| 0 <= i < n ==> (#[trigger] buffers@[i])@.len() == message_size,
        decreases count - n,
    {
        let mut buffer: Vec<u8> = Vec::new();
        let mut k: usize = 0;
        while k < message_size
            invariant
                k <= message_size,
                buffer@.len() == k,
            decreases message_size - k,
        {
            buffer.push(random_byte());
            k = k + 1;
        }
        buffers.push(buffer);
        n = n + 1;
    }
    buffers
}

/// `count` copies of the addition test vector.
pub fn generate_buffers_add(count: usize) -> (r: Vec<Vec<u8>>)
    ensures
        r@.len() == count,
        forall|i: int|
            0 <= i < count ==> (#[trigger] r@[i])@ == test_vector(ADDITION_INPUT.spec_bytes()),
{
    repeat_buffer(&decode_test_vector(ADDITION_INPUT), count)
}

/// `count` copies of the multiplication test vector.
pub fn generate_buffers_mul(count: usize) -> (r: Vec<Vec<u8>>)
    ensures
        r@.len() == count,
        forall|i: int|
            0 <= i < count ==> (#[trigger] r@[i])@ == test_vector(MULTIPLICATION_INPUT.spec_bytes()),
{
    repeat_buffer(&decode_test_vector(MULTIPLICATION_INPUT), count)
}

/// `count` copies of the pairing test vector.
pub fn generate_buffers_pair(count: usize) -> (r: Vec<Vec<u8>>)
    ensures
        r@.len() == count,
        forall|i: int|
            0 <= i < count ==> (#[trigger] r@[i])@ == test_vector(PAIRING_INPUT.spec_bytes()),
{
    repeat_buffer(&decode_test_vector(PAIRING_INPUT), count)
}

/// Runs the addition syscall once over `input`, placed alone in a writable
/// region at guest address 0; the result point overwrites the start of it.
pub fn alt_bn128_run_addition(syscall: &SyscallAltBn128Addition, input: &Vec<u8>) -> (r: Result<
    u64,
    SyscallError,
>)
    ensures
        forall|m: MemoryMapping|
            m.spec_vm_addr() == 0 && #[trigger] m.spec_memory() == input@ && m.spec_writable() ==> r
                == (syscall_outcome(
                m,
                0,
                input@.len() as u64,
                0,
                ALT_BN128_ADDITION_OUTPUT_LEN,
                |bytes: Seq<u8>| addition_result(bytes),
            )).0,
{
    let mut memory_mapping = MemoryMapping::new(input.clone(), 0, true);
    let ghost start = memory_mapping;
    let mut result: Result<u64, SyscallError> = Ok(0);
    syscall.call(0, input.len() as u64, 0, 0, 0, &mut memory_mapping, &mut result);
    proof {
        assert forall|m: MemoryMapping|
            m.spec_vm_addr() == 0 && #[trigger] m.spec_memory() == input@ && m.spec_writable() implies result
                == (syscall_outcome(
                m,
                0,
                input@.len() as u64,
                0,
                ALT_BN128_ADDITION_OUTPUT_LEN,
                |bytes: Seq<u8>| addition_result(bytes),
            )).0 by {
            crate::alt_bn128::lemma_same_region_same_outcome(
                m,
                start,
                0,
                input@.len() as u64,
                0,
                ALT_BN128_ADDITION_OUTPUT_LEN,
                |bytes: Seq<u8>| addition_result(bytes),
            );
        }
    }
    result
}

/// Runs the multiplication syscall once over `input`, placed alone in a writable
/// region at guest address 0; the result point overwrites the start of it.
pub fn alt_bn128_run_multiplication(syscall: &SyscallAltBn128Multiplication, input: &Vec<u8>) -> (r: Result<
    u64,
    SyscallError,
>)
    ensures
        forall|m: MemoryMapping|
            m.spec_vm_addr() == 0 && #[trigger] m.spec_memory() == input@ && m.spec_writable() ==> r
                == (syscall_outcome(
                m,
                0,
                input@.len() as u64,
                0,
                ALT_BN128_MULTIPLICATION_OUTPUT_LEN,
                |bytes: Seq<u8>| multiplication_result(bytes),
            )).0,
{
    let mut memory_mapping = MemoryMapping::new(input.clone(), 0, true);
    let ghost start = memory_mapping;
    let mut result: Result<u64, SyscallError> = Ok(0);
    syscall.call(0, input.len() as u64, 0, 0, 0, &mut memory_mapping, &mut result);
    proof {
        assert forall|m: MemoryMapping|
            m.spec_vm_addr() == 0 && #[trigger] m.spec_memory() == input@ && m.spec_writable() implies result
                == (syscall_outcome(
                m,
                0,
                input@.len() as u64,
                0,
                ALT_BN128_MULTIPLICATION_OUTPUT_LEN,
                |bytes: Seq<u8>| multiplication_result(bytes),
            )).0 by {
            crate::alt_bn128::lemma_same_region_same_outcome(
                m,
                start,
                0,
                input@.len() as u64,
                0,
                ALT_BN128_MULTIPLICATION_OUTPUT_LEN,
                |bytes: Seq<u8>| multiplication_result(bytes),
            );
        }
    }
    result
}

/// Runs the pairing syscall once over `input`, placed alone in a writable
/// region at guest address 0; the result point overwrites the start of it.
pub fn alt_bn128_run_pairing(syscall: &SyscallAltBn128Pairing, input: &Vec<u8>) -> (r: Result<
    u64,
    SyscallError,
>)
    ensures
        forall|m: MemoryMapping|
            m.spec_vm_addr() == 0 && #[trigger] m.spec_memory() == input@ && m.spec_writable() ==> r
                == (syscall_outcome(
                m,
                0,
                input@.len() as u64,
                0,
                ALT_BN128_PAIRING_OUTPUT_LEN,
                |bytes: Seq<u8>| pairing_result(bytes),
            )).0,
{
    let mut memory_mapping = MemoryMapping::new(input.clone(), 0, true);
    let ghost start = memory_mapping;
    let mut result: Result<u64, SyscallError> = Ok(0);
    syscall.call(0, input.len() as u64, 0, 0, 0, &mut memory_mapping, &mut result);
    proof {
        assert forall|m: MemoryMapping|
            m.spec_vm_addr() == 0 && #[trigger] m.spec_memory() == input@ && m.spec_writable() implies result
                == (syscall_outcome(
                m,
                0,
                input@.len() as u64,
                0,
                ALT_BN128_PAIRING_OUTPUT_LEN,
                |bytes: Seq<u8>| pairing_result(bytes),
            )).0 by {
            crate::alt_bn128::lemma_same_region_same_outcome(
                m,
                start,
                0,
                input@.len() as u64,
                0,
                ALT_BN128_PAIRING_OUTPUT_LEN,
                |bytes: Seq<u8>| pairing_result(bytes),
            );
        }
    }
    result
}

/// The curve benchmarks a run asks for, in the order they run.
pub open spec fn selected_benches(bench: Option<Bench>) -> Seq<Bench> {
    match bench {
        None => seq![Bench::Addition, Bench::Multiplication, Bench::Pairing],
        Some(b) => seq![b],
    }
}

/// The curve benchmarks to run for `app`, in order; the hash baseline always
/// runs first.
pub fn execute(app: &Application) -> (r: Vec<Bench>)
    ensures
        r@ == selected_benches(app.bench),
{
    match app.bench {
        None => vec![Bench::Addition, Bench::Multiplication, Bench::Pairing],
        Some(b) => vec![b],
    }
}

} // verus!
