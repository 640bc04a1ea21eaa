//! The alt_bn128 syscall adapters: each one translates its input and output
//! ranges, runs its curve operation, and reports a status code.

use vstd::prelude::*;
use solana_sdk::alt_bn128::prelude::{
    alt_bn128_addition, alt_bn128_multiplication, alt_bn128_pairing, AltBn128Error,
};
use solana_sdk::pubkey::Pubkey;
use crate::memory::{AccessType, MemoryMapping};
use crate::translate::{translate_slice, translate_slice_mut, translation, view_within, HostView, SyscallError};

verus! {

#[verifier::external_type_specification]
#[verifier::external_body]
pub struct ExPubkey(Pubkey);

/// Bytes written by a successful addition.
pub const ALT_BN128_ADDITION_OUTPUT_LEN: u64 = 64;

/// Bytes written by a successful multiplication.
pub const ALT_BN128_MULTIPLICATION_OUTPUT_LEN: u64 = 64;

/// Bytes written by a successful pairing check.
pub const ALT_BN128_PAIRING_OUTPUT_LEN: u64 = 32;

/// The longest addition or multiplication input the curve functions accept.
pub const ALT_BN128_MAX_INPUT_LEN: u64 = 128;

/// The status code of a curve function that refused its input as invalid.
pub const INVALID_INPUT_DATA: u64 = 1;

/// The status code of a curve result of the wrong length.
pub const SLICE_OUT_OF_BOUNDS: u64 = 3;

/// The bytes of the loader the adapters are registered for.
pub const LOADER_ID: [u8; 32] = [
    174, 61, 25, 136, 96, 204, 69, 106, 82, 179, 208, 201, 144, 135, 45, 139, 5, 79, 144, 53, 136,
    27, 156, 6, 186, 14, 53, 27, 48, 80, 192, 220,
];

/// What the addition of the points encoded in `input` gives: the result point's
/// bytes, or the error's status code.
pub uninterp spec fn addition_result(input: Seq<u8>) -> Result<Seq<u8>, u64>;

/// What the multiplication encoded in `input` gives: the result point's bytes,
/// or the error's status code.
pub uninterp spec fn multiplication_result(input: Seq<u8>) -> Result<Seq<u8>, u64>;

/// What the pairing check of the pairs encoded in `input` gives: the answer's
/// bytes, or the error's status code.
pub uninterp spec fn pairing_result(input: Seq<u8>) -> Result<Seq<u8>, u64>;

/// An executable curve result agrees with its named outcome.
pub open spec fn agrees(r: Result<Vec<u8>, u64>, named: Result<Seq<u8>, u64>) -> bool {
    match r {
        Ok(v) => named == Ok::<Seq<u8>, u64>(v@),
        Err(c) => named == Err::<Seq<u8>, u64>(c),
    }
}

/// Relies on solana_sdk's `alt_bn128_addition`, a function of the input bytes;
/// its error is turned into a status code by `u64::from(AltBn128Error)`, which
/// gives 1 to 6. An input over 128 bytes is refused as `InvalidInputData` (1).
#[verifier::external_body]
fn curve_addition(input: &[u8]) -> (r: Result<Vec<u8>, u64>)
    ensures
        agrees(r, addition_result(input@)),
        r matches Err(c) ==> 1 <= c <= 6,
        r matches Ok(_) ==> input@.len() <= ALT_BN128_MAX_INPUT_LEN,
        r matches Err(c) ==> (c == INVALID_INPUT_DATA || input@.len() <= ALT_BN128_MAX_INPUT_LEN),
{
    alt_bn128_addition(input).map_err(u64::from)
}

/// Relies on solana_sdk's `alt_bn128_multiplication`, a function of the input
/// bytes; its error is turned into a status code by `u64::from(AltBn128Error)`,
/// which gives 1 to 6. An input over 128 bytes is refused as `InvalidInputData` (1).
#[verifier::external_body]
fn curve_multiplication(input: &[u8]) -> (r: Result<Vec<u8>, u64>)
    ensures
        agrees(r, multiplication_result(input@)),
        r matches Err(c) ==> 1 <= c <= 6,
        r matches Ok(_) ==> input@.len() <= ALT_BN128_MAX_INPUT_LEN,
        r matches Err(c) ==> (c == INVALID_INPUT_DATA || input@.len() <= ALT_BN128_MAX_INPUT_LEN),
{
    alt_bn128_multiplication(input).map_err(u64::from)
}

/// Relies on solana_sdk's `alt_bn128_pairing`, a function of the input bytes;
/// its error is turned into a status code by `u64::from(AltBn128Error)`, which
/// gives 1 to 6.
#[verifier::external_body]
fn curve_pairing(input: &[u8]) -> (r: Result<Vec<u8>, u64>)
    ensures
        agrees(r, pairing_result(input@)),
        r matches Err(c) ==> 1 <= c <= 6,
{
    alt_bn128_pairing(input).map_err(u64::from)
}

/// Relies on `u64::from(AltBn128Error)`, which gives `SliceOutOfBounds` the code 3.
#[verifier::external_body]
fn slice_out_of_bounds_code() -> (r: u64)
    ensures
        r == SLICE_OUT_OF_BOUNDS,
{
    u64::from(AltBn128Error::SliceOutOfBounds)
}

/// Relies on `Pubkey::new_from_array`, which builds a key from its 32 bytes.
#[verifier::external_body]
fn pubkey_from_array(bytes: [u8; 32]) -> Pubkey {
    Pubkey::new_from_array(bytes)
}

/// Status code and new region bytes once the output view is known: a curve
/// error is its code, a result of the wrong length is `SLICE_OUT_OF_BOUNDS`,
/// and a result of the right length is copied to the view, with status 0.
pub open spec fn completion(
    memory: Seq<u8>,
    curve: Result<Seq<u8>, u64>,
    output_len: u64,
    output: HostView,
) -> (u64, Seq<u8>) {
    match curve {
        Err(code) => (code, memory),
        Ok(bytes) => if bytes.len() != output_len {
            (SLICE_OUT_OF_BOUNDS, memory)
        } else {
            (0, memory.update_subrange_with(output.host_addr as int, bytes))
        },
    }
}

/// The bytes a view covers.
pub open spec fn view_bytes(memory: Seq<u8>, view: HostView) -> Seq<u8> {
    memory.subrange(view.host_addr as int, view.host_addr + view.byte_len)
}

/// What one syscall does to a region: its result, and the region's bytes after.
/// A translation failure is fatal and writes nothing.
pub open spec fn syscall_outcome(
    m: MemoryMapping,
    input_addr: u64,
    input_size: u64,
    result_addr: u64,
    output_len: u64,
    curve: spec_fn(Seq<u8>) -> Result<Seq<u8>, u64>,
) -> (Result<u64, SyscallError>, Seq<u8>) {
    match translation::<u8>(m, AccessType::Load, input_addr, input_size, true) {
        Err(e) => (Err(e), m.spec_memory()),
        Ok(input) => match translation::<u8>(m, AccessType::Store, result_addr, output_len, true) {
            Err(e) => (Err(e), m.spec_memory()),
            Ok(output) => {
                let (status, memory) = completion(
                    m.spec_memory(),
                    curve(view_bytes(m.spec_memory(), input)),
                    output_len,
                    output,
                );
                (Ok(status), memory)
            },
        },
    }
}

/// Both ranges translate and the curve function refuses the input.
pub open spec fn curve_refused(
    m: MemoryMapping,
    input_addr: u64,
    input_size: u64,
    result_addr: u64,
    output_len: u64,
    curve: spec_fn(Seq<u8>) -> Result<Seq<u8>, u64>,
) -> bool {
    match translation::<u8>(m, AccessType::Load, input_addr, input_size, true) {
        Err(_) => false,
        Ok(input) => translation::<u8>(m, AccessType::Store, result_addr, output_len, true) is Ok
            && curve(view_bytes(m.spec_memory(), input)) is Err,
    }
}

/// An addition whose ranges translate and whose curve function succeeds with a
/// 64-byte point ends with status 0 and exactly that point in the output view.
pub proof fn lemma_addition_round_trip(
    m: MemoryMapping,
    input_addr: u64,
    input_size: u64,
    result_addr: u64,
    point: Seq<u8>,
)
    requires
        translation::<u8>(m, AccessType::Load, input_addr, input_size, true) is Ok,
        translation::<u8>(m, AccessType::Store, result_addr, ALT_BN128_ADDITION_OUTPUT_LEN, true) is Ok,
        addition_result(
            view_bytes(
                m.spec_memory(),
                translation::<u8>(m, AccessType::Load, input_addr, input_size, true)->Ok_0,
            ),
        ) == Ok::<Seq<u8>, u64>(point),
        point.len() == ALT_BN128_ADDITION_OUTPUT_LEN,
    ensures
        ({
            let (status, memory) = syscall_outcome(
                m,
                input_addr,
                input_size,
                result_addr,
                ALT_BN128_ADDITION_OUTPUT_LEN,
                |input: Seq<u8>| addition_result(input),
            );
            let output = translation::<u8>(
                m,
                AccessType::Store,
                result_addr,
                ALT_BN128_ADDITION_OUTPUT_LEN,
                true,
            )->Ok_0;
            status == Ok::<u64, SyscallError>(0) && view_bytes(memory, output) == point
        }),
{
    let output = translation::<u8>(
        m,
        AccessType::Store,
        result_addr,
        ALT_BN128_ADDITION_OUTPUT_LEN,
        true,
    )->Ok_0;
    let memory = m.spec_memory().update_subrange_with(output.host_addr as int, point);
    assert(view_bytes(memory, output) =~= point);
}

/// A syscall depends only on the region it is handed: two regions with the same
/// start, bytes and permission give the same result and the same bytes after.
pub proof fn lemma_same_region_same_outcome(
    m1: MemoryMapping,
    m2: MemoryMapping,
    input_addr: u64,
    input_size: u64,
    result_addr: u64,
    output_len: u64,
    curve: spec_fn(Seq<u8>) -> Result<Seq<u8>, u64>,
)
    requires
        m1.spec_vm_addr() == m2.spec_vm_addr(),
        m1.spec_memory() == m2.spec_memory(),
        m1.spec_writable() == m2.spec_writable(),
    ensures
        syscall_outcome(m1, input_addr, input_size, result_addr, output_len, curve)
            == syscall_outcome(m2, input_addr, input_size, result_addr, output_len, curve),
{
}

/// Writes a curve function's result into the output view and returns the status
/// code of the syscall.
pub fn complete_call(
    curve_result: Result<Vec<u8>, u64>,
    output_len: u64,
    output: HostView,
    memory_mapping: &mut MemoryMapping,
) -> (status: u64)
    requires
        view_within(output, *old(memory_mapping)),
        output.byte_len == output_len,
    ensures
        ({
            let named = match curve_result {
                Ok(v) => Ok::<Seq<u8>, u64>(v@),
                Err(c) => Err::<Seq<u8>, u64>(c),
            };
            (status, final(memory_mapping).spec_memory()) == completion(
                old(memory_mapping).spec_memory(),
                named,
                output_len,
                output,
            )
        }),
        final(memory_mapping).spec_vm_addr() == old(memory_mapping).spec_vm_addr(),
        final(memory_mapping).spec_writable() == old(memory_mapping).spec_writable(),
        final(memory_mapping).wf() == old(memory_mapping).wf(),
{
    match curve_result {
        Err(code) => code,
        Ok(bytes) => {
            if bytes.len() as u64 != output_len {
                return slice_out_of_bounds_code();
            }
            memory_mapping.store(output.host_addr, &bytes);
            0
        },
    }
}

/// The alt_bn128 addition syscall.
pub struct SyscallAltBn128Addition {
    loader_id: Pubkey,
}

impl SyscallAltBn128Addition {
    /// The syscall, registered for the loader `LOADER_ID`.
    pub fn new() -> (r: Self) {
        SyscallAltBn128Addition { loader_id: pubkey_from_array(LOADER_ID) }
    }

    /// Runs the addition on the `input_size` bytes at guest address `input_addr`
    /// and writes its 64-byte result at guest address `result_addr`.
    /// `result` receives a fatal translation error, or the status code: 0 once
    /// the result is written, the curve error's code otherwise.
    #[allow(clippy::too_many_arguments)]
    pub fn call(
        &self,
        input_addr: u64,
        input_size: u64,
        result_addr: u64,
        _arg4: u64,
        _arg5: u64,
        memory_mapping: &mut MemoryMapping,
        result: &mut Result<u64, SyscallError>,
    )
        ensures
            (*final(result), final(memory_mapping).spec_memory()) == syscall_outcome(
                *old(memory_mapping),
                input_addr,
                input_size,
                result_addr,
                ALT_BN128_ADDITION_OUTPUT_LEN,
                |input: Seq<u8>| addition_result(input),
            ),
            final(memory_mapping).spec_vm_addr() == old(memory_mapping).spec_vm_addr(),
            final(memory_mapping).spec_writable() == old(memory_mapping).spec_writable(),
            final(memory_mapping).wf() == old(memory_mapping).wf(),
            *final(result) matches Ok(code) && code != 0 ==> final(memory_mapping).spec_memory()
                == old(memory_mapping).spec_memory(),
            curve_refused(
                *old(memory_mapping),
                input_addr,
                input_size,
                result_addr,
                ALT_BN128_ADDITION_OUTPUT_LEN,
                |input: Seq<u8>| addition_result(input),
            ) ==> (*final(result) matches Ok(code) && code >= 1),
    {
        let input = match translate_slice::<u8>(memory_mapping, input_addr, input_size, true) {
            Ok(view) => view,
            Err(e) => {
                *result = Err(e);
                return;
            },
        };
        let output = match translate_slice_mut::<u8>(
            memory_mapping,
            result_addr,
            ALT_BN128_ADDITION_OUTPUT_LEN,
            true,
        ) {
            Ok(view) => view,
            Err(e) => {
                *result = Err(e);
                return;
            },
        };
        let bytes = memory_mapping.load(input.host_addr, input.byte_len);
        let curve_result = curve_addition(bytes.as_slice());
        *result = Ok(complete_call(curve_result, ALT_BN128_ADDITION_OUTPUT_LEN, output, memory_mapping));
    }
}

/// The alt_bn128 multiplication syscall.
pub struct SyscallAltBn128Multiplication {
    loader_id: Pubkey,
}

impl SyscallAltBn128Multiplication {
    /// The syscall, registered for the loader `LOADER_ID`.
    pub fn new() -> (r: Self) {
        SyscallAltBn128Multiplication { loader_id: pubkey_from_array(LOADER_ID) }
    }

    /// Runs the multiplication on the `input_size` bytes at guest address `input_addr`
    /// and writes its 64-byte result at guest address `result_addr`.
    /// `result` receives a fatal translation error, or the status code: 0 once
    /// the result is written, the curve error's code otherwise.
    #[allow(clippy::too_many_arguments)]
    pub fn call(
        &self,
        input_addr: u64,
        input_size: u64,
        result_addr: u64,
        _arg4: u64,
        _arg5: u64,
        memory_mapping: &mut MemoryMapping,
        result: &mut Result<u64, SyscallError>,
    )
        ensures
            (*final(result), final(memory_mapping).spec_memory()) == syscall_outcome(
                *old(memory_mapping),
                input_addr,
                input_size,
                result_addr,
                ALT_BN128_MULTIPLICATION_OUTPUT_LEN,
                |input: Seq<u8>| multiplication_result(input),
            ),
            final(memory_mapping).spec_vm_addr() == old(memory_mapping).spec_vm_addr(),
            final(memory_mapping).spec_writable() == old(memory_mapping).spec_writable(),
            final(memory_mapping).wf() == old(memory_mapping).wf(),
            *final(result) matches Ok(code) && code != 0 ==> final(memory_mapping).spec_memory()
                == old(memory_mapping).spec_memory(),
            curve_refused(
                *old(memory_mapping),
                input_addr,
                input_size,
                result_addr,
                ALT_BN128_MULTIPLICATION_OUTPUT_LEN,
                |input: Seq<u8>| multiplication_result(input),
            ) ==> (*final(result) matches Ok(code) && code >= 1),
    {
        let input = match translate_slice::<u8>(memory_mapping, input_addr, input_size, true) {
            Ok(view) => view,
            Err(e) => {
                *result = Err(e);
                return;
            },
        };
        let output = match translate_slice_mut::<u8>(
            memory_mapping,
            result_addr,
            ALT_BN128_MULTIPLICATION_OUTPUT_LEN,
            true,
        ) {
            Ok(view) => view,
            Err(e) => {
                *result = Err(e);
                return;
            },
        };
        let bytes = memory_mapping.load(input.host_addr, input.byte_len);
        let curve_result = curve_multiplication(bytes.as_slice());
        *result = Ok(complete_call(curve_result, ALT_BN128_MULTIPLICATION_OUTPUT_LEN, output, memory_mapping));
    }
}

/// The alt_bn128 pairing check syscall.
pub struct SyscallAltBn128Pairing {
    loader_id: Pubkey,
}

impl SyscallAltBn128Pairing {
    /// The syscall, registered for the loader `LOADER_ID`.
    pub fn new() -> (r: Self) {
        SyscallAltBn128Pairing { loader_id: pubkey_from_array(LOADER_ID) }
    }

    /// Runs the pairing check on the `input_size` bytes at guest address `input_addr`
    /// and writes its 32-byte result at guest address `result_addr`.
    /// `result` receives a fatal translation error, or the status code: 0 once
    /// the result is written, the curve error's code otherwise.
    #[allow(clippy::too_many_arguments)]
    pub fn call(
        &self,
        input_addr: u64,
        input_size: u64,
        result_addr: u64,
        _arg4: u64,
        _arg5: u64,
        memory_mapping: &mut MemoryMapping,
        result: &mut Result<u64, SyscallError>,
    )
        ensures
            (*final(result), final(memory_mapping).spec_memory()) == syscall_outcome(
                *old(memory_mapping),
                input_addr,
                input_size,
                result_addr,
                ALT_BN128_PAIRING_OUTPUT_LEN,
                |input: Seq<u8>| pairing_result(input),
            ),
            final(memory_mapping).spec_vm_addr() == old(memory_mapping).spec_vm_addr(),
            final(memory_mapping).spec_writable() == old(memory_mapping).spec_writable(),
            final(memory_mapping).wf() == old(memory_mapping).wf(),
            *final(result) matches Ok(code) && code != 0 ==> final(memory_mapping).spec_memory()
                == old(memory_mapping).spec_memory(),
            curve_refused(
                *old(memory_mapping),
                input_addr,
                input_size,
                result_addr,
                ALT_BN128_PAIRING_OUTPUT_LEN,
                |input: Seq<u8>| pairing_result(input),
            ) ==> (*final(result) matches Ok(code) && code >= 1),
    {
        let input = match translate_slice::<u8>(memory_mapping, input_addr, input_size, true) {
            Ok(view) => view,
            Err(e) => {
                *result = Err(e);
                return;
            },
        };
        let output = match translate_slice_mut::<u8>(
            memory_mapping,
            result_addr,
            ALT_BN128_PAIRING_OUTPUT_LEN,
            true,
        ) {
            Ok(view) => view,
            Err(e) => {
                *result = Err(e);
                return;
            },
        };
        let bytes = memory_mapping.load(input.host_addr, input.byte_len);
        let curve_result = curve_pairing(bytes.as_slice());
        *result = Ok(complete_call(curve_result, ALT_BN128_PAIRING_OUTPUT_LEN, output, memory_mapping));
    }
}

} // verus!
