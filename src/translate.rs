//! Turning a guest `(address, element count)` pair into a bounds-checked,
//! aligned host view.

use vstd::prelude::*;
use vstd::layout::{align_of, size_of};
use crate::memory::{AccessType, MappingError, MemoryMapping, range_within};

verus! {

/// A fatal error of a syscall: no safe view of guest memory could be had.
#[derive(Clone, Copy, Debug, PartialEq, Eq, Structural)]
pub enum SyscallError {
    /// The address is not aligned for the element type.
    UnalignedPointer,
    /// The mapping capability refused the range.
    Mapping(MappingError),
}

/// A checked view of `len` elements, `byte_len` bytes, at host address `host_addr`.
#[derive(Clone, Copy, Debug, PartialEq, Eq, Structural)]
pub struct HostView {
    pub host_addr: u64,
    pub len: u64,
    pub byte_len: u64,
}

/// The view of no elements.
pub open spec fn empty_view() -> HostView {
    HostView { host_addr: 0, len: 0, byte_len: 0 }
}

/// `addr` is a multiple of `T`'s alignment.
pub open spec fn aligned<T>(addr: u64) -> bool {
    addr as nat % align_of::<T>() == 0
}

/// Bytes taken by `count` elements of `T`, saturated at `u64::MAX`.
pub open spec fn saturated_byte_len<T>(count: u64) -> u64 {
    if count * size_of::<T>() <= u64::MAX {
        (count * size_of::<T>()) as u64
    } else {
        u64::MAX
    }
}

/// The outcome of translating `len` elements of `T` at guest address `vm_addr`.
/// With `enforce_aligned_host_addrs` the translated host address is checked for
/// alignment; without it the guest address is checked before the mapping is asked.
pub open spec fn translation<T>(
    memory_mapping: MemoryMapping,
    access_type: AccessType,
    vm_addr: u64,
    len: u64,
    enforce_aligned_host_addrs: bool,
) -> Result<HostView, SyscallError> {
    if len == 0 {
        Ok(empty_view())
    } else if !enforce_aligned_host_addrs && !aligned::<T>(vm_addr) {
        Err(SyscallError::UnalignedPointer)
    } else {
        match memory_mapping.spec_map(access_type, vm_addr, saturated_byte_len::<T>(len)) {
            Err(e) => Err(SyscallError::Mapping(e)),
            Ok(host_addr) => if enforce_aligned_host_addrs && !aligned::<T>(host_addr) {
                Err(SyscallError::UnalignedPointer)
            } else {
                Ok(HostView { host_addr, len, byte_len: saturated_byte_len::<T>(len) })
            },
        }
    }
}

/// A view lies inside the region it was translated against.
pub open spec fn view_within(view: HostView, memory_mapping: MemoryMapping) -> bool {
    range_within(
        view.host_addr as int,
        view.byte_len as int,
        memory_mapping.spec_memory().len() as int,
    )
}

/// Translates `len` elements of `T` at guest address `vm_addr` for `access_type`.
pub fn translate_slice_inner<T>(
    memory_mapping: &MemoryMapping,
    access_type: AccessType,
    vm_addr: u64,
    len: u64,
    enforce_aligned_host_addrs: bool,
) -> (r: Result<HostView, SyscallError>)
    ensures
        r == translation::<T>(*memory_mapping, access_type, vm_addr, len, enforce_aligned_host_addrs),
        r matches Ok(view) ==> view_within(view, *memory_mapping),
{
    if len == 0 {
        return Ok(HostView { host_addr: 0, len: 0, byte_len: 0 });
    }
    vstd::layout::layout_for_type_is_valid::<T>();
    let align = core::mem::align_of::<T>() as u64;
    if !enforce_aligned_host_addrs && vm_addr % align != 0 {
        return Err(SyscallError::UnalignedPointer);
    }
    let size = core::mem::size_of::<T>() as u64;
    let byte_len = match len.checked_mul(size) {
        Some(b) => b,
        None => u64::MAX,
    };
    let host_addr = match memory_mapping.map(access_type, vm_addr, byte_len) {
        Ok(host_addr) => host_addr,
        Err(e) => return Err(SyscallError::Mapping(e)),
    };
    if enforce_aligned_host_addrs && host_addr % align != 0 {
        return Err(SyscallError::UnalignedPointer);
    }
    Ok(HostView { host_addr, len, byte_len })
}

/// Translates a guest range that will only be read.
pub fn translate_slice<T>(
    memory_mapping: &MemoryMapping,
    vm_addr: u64,
    len: u64,
    enforce_aligned_host_addrs: bool,
) -> (r: Result<HostView, SyscallError>)
    ensures
        r == translation::<T>(*memory_mapping, AccessType::Load, vm_addr, len, enforce_aligned_host_addrs),
        r matches Ok(view) ==> view_within(view, *memory_mapping),
{
    translate_slice_inner::<T>(memory_mapping, AccessType::Load, vm_addr, len, enforce_aligned_host_addrs)
}

/// Translates a guest range that will be written.
pub fn translate_slice_mut<T>(
    memory_mapping: &MemoryMapping,
    vm_addr: u64,
    len: u64,
    enforce_aligned_host_addrs: bool,
) -> (r: Result<HostView, SyscallError>)
    ensures
        r == translation::<T>(*memory_mapping, AccessType::Store, vm_addr, len, enforce_aligned_host_addrs),
        r matches Ok(view) ==> view_within(view, *memory_mapping),
{
    translate_slice_inner::<T>(memory_mapping, AccessType::Store, vm_addr, len, enforce_aligned_host_addrs)
}

/// A request for no elements gives the empty view whatever the mapping holds,
/// for either access and either alignment mode: the mapping is never consulted.
pub proof fn lemma_empty_request_ignores_mapping<T>(
    m1: MemoryMapping,
    m2: MemoryMapping,
    access_type: AccessType,
    vm_addr: u64,
    enforce_aligned_host_addrs: bool,
)
    ensures
        translation::<T>(m1, access_type, vm_addr, 0, enforce_aligned_host_addrs) == Ok::<HostView, SyscallError>(empty_view()),
        translation::<T>(m1, access_type, vm_addr, 0, enforce_aligned_host_addrs)
            == translation::<T>(m2, access_type, vm_addr, 0, enforce_aligned_host_addrs),
{
}

/// An aligned guest range that lies inside the region, with an access the region
/// permits, translates to a view of exactly `len * size_of::<T>()` bytes.
pub proof fn lemma_in_bounds_view_length<T>(
    m: MemoryMapping,
    access_type: AccessType,
    vm_addr: u64,
    len: u64,
    enforce_aligned_host_addrs: bool,
)
    requires
        m.wf(),
        aligned::<T>(vm_addr),
        aligned::<T>((vm_addr - m.spec_vm_addr()) as u64),
        m.spec_vm_addr() <= vm_addr,
        (vm_addr - m.spec_vm_addr()) + len * size_of::<T>() <= m.spec_memory().len(),
        access_type == AccessType::Store ==> m.spec_writable(),
    ensures
        translation::<T>(m, access_type, vm_addr, len, enforce_aligned_host_addrs) matches Ok(view)
            && view.len == len && view.byte_len == len * size_of::<T>(),
{
    assert(0 <= len * size_of::<T>()) by (nonlinear_arith);
}

/// Without host alignment enforcement, a misaligned guest address fails with
/// `UnalignedPointer` whatever the mapping holds: the mapping is never consulted.
pub proof fn lemma_misaligned_fails_before_mapping<T>(
    m1: MemoryMapping,
    m2: MemoryMapping,
    access_type: AccessType,
    vm_addr: u64,
    len: u64,
)
    requires
        !aligned::<T>(vm_addr),
        len > 0,
    ensures
        translation::<T>(m1, access_type, vm_addr, len, false) == Err::<HostView, SyscallError>(
            SyscallError::UnalignedPointer,
        ),
        translation::<T>(m1, access_type, vm_addr, len, false) == translation::<T>(
            m2,
            access_type,
            vm_addr,
            len,
            false,
        ),
{
}

} // verus!
