//! A guest address space made of one host buffer, and the mapping capability
//! that turns a guest range into a host range.

use vstd::prelude::*;

verus! {

/// How the caller means to use a translated range.
#[derive(Clone, Copy, Debug, PartialEq, Eq, Structural)]
pub enum AccessType {
    /// Read only.
    Load,
    /// Read and write.
    Store,
}

/// Why the mapping capability refused a guest range.
#[derive(Clone, Copy, Debug, PartialEq, Eq, Structural)]
pub enum MappingError {
    /// The range does not lie entirely inside the region.
    AccessViolation { access_type: AccessType, vm_addr: u64, len: u64 },
    /// A store was asked of a region that is not writable.
    WriteProtected { vm_addr: u64, len: u64 },
}

/// One region of guest memory: guest addresses `[vm_addr, vm_addr + memory.len())`
/// map onto the host buffer `memory`, host address 0 being its first byte.
pub struct MemoryMapping {
    vm_addr: u64,
    memory: Vec<u8>,
    writable: bool,
}

/// The host range `[host_addr, host_addr + len)` lies inside a buffer of `size` bytes.
pub open spec fn range_within(host_addr: int, len: int, size: int) -> bool {
    0 <= host_addr && 0 <= len && host_addr + len <= size
}

/// What the mapping capability answers for a guest range of a region.
pub open spec fn map_result(
    region_start: u64,
    region_len: nat,
    writable: bool,
    access_type: AccessType,
    vm_addr: u64,
    len: u64,
) -> Result<u64, MappingError> {
    if vm_addr < region_start || !range_within(
        vm_addr - region_start,
        len as int,
        region_len as int,
    ) {
        Err(MappingError::AccessViolation { access_type, vm_addr, len })
    } else if access_type == AccessType::Store && !writable {
        Err(MappingError::WriteProtected { vm_addr, len })
    } else {
        Ok((vm_addr - region_start) as u64)
    }
}

impl MemoryMapping {
    /// First guest address of the region.
    pub closed spec fn spec_vm_addr(&self) -> u64 {
        self.vm_addr
    }

    /// The bytes of the region.
    pub closed spec fn spec_memory(&self) -> Seq<u8> {
        self.memory@
    }

    /// Whether stores into the region are permitted.
    pub closed spec fn spec_writable(&self) -> bool {
        self.writable
    }

    /// The region's length is a guest-addressable size.
    pub open spec fn wf(&self) -> bool {
        self.spec_memory().len() <= u64::MAX
    }

    /// The answer of `map` on this region.
    pub open spec fn spec_map(&self, access_type: AccessType, vm_addr: u64, len: u64) -> Result<
        u64,
        MappingError,
    > {
        map_result(
            self.spec_vm_addr(),
            self.spec_memory().len(),
            self.spec_writable(),
            access_type,
            vm_addr,
            len,
        )
    }

    /// A region over `memory` that starts at guest address `vm_addr`.
    pub fn new(memory: Vec<u8>, vm_addr: u64, writable: bool) -> (r: MemoryMapping)
        ensures
            r.spec_vm_addr() == vm_addr,
            r.spec_memory() == memory@,
            r.spec_writable() == writable,
            r.wf(),
    {
        // A vector's length is a `usize`, so the region's length fits in a `u64`.
        let _len: usize = memory.len();
        MemoryMapping { vm_addr, memory, writable }
    }

    /// The bytes of the region.
    pub fn memory(&self) -> (r: &Vec<u8>)
        ensures
            r@ == self.spec_memory(),
    {
        &self.memory
    }

    /// Gives the region's buffer back.
    pub fn into_memory(self) -> (r: Vec<u8>)
        ensures
            r@ == self.spec_memory(),
    {
        self.memory
    }

    /// Translates the guest range `[vm_addr, vm_addr + len)` into a host address,
    /// or says why it cannot be used for `access_type`.
    pub fn map(&self, access_type: AccessType, vm_addr: u64, len: u64) -> (r: Result<
        u64,
        MappingError,
    >)
        ensures
            r == self.spec_map(access_type, vm_addr, len),
            r matches Ok(host_addr) ==> range_within(
                host_addr as int,
                len as int,
                self.spec_memory().len() as int,
            ),
    {
        let size = self.memory.len() as u64;
        if vm_addr < self.vm_addr {
            return Err(MappingError::AccessViolation { access_type, vm_addr, len });
        }
        let offset = vm_addr - self.vm_addr;
        if len > size || offset > size - len {
            return Err(MappingError::AccessViolation { access_type, vm_addr, len });
        }
        if access_type == AccessType::Store && !self.writable {
            return Err(MappingError::WriteProtected { vm_addr, len });
        }
        Ok(offset)
    }

    /// Copies out the `len` bytes at host address `host_addr`.
    pub fn load(&self, host_addr: u64, len: u64) -> (r: Vec<u8>)
        requires
            range_within(host_addr as int, len as int, self.spec_memory().len() as int),
        ensures
            r@ == self.spec_memory().subrange(host_addr as int, host_addr + len),
    {
        let size: usize = self.memory.len();
        assert(host_addr + len <= size);
        let start: usize = host_addr as usize;
        let end: usize = start + len as usize;
        let ghost want = self.spec_memory().subrange(host_addr as int, host_addr + len);
        let mut out: Vec<u8> = Vec::new();
        let mut j: usize = start;
        while j < end
            invariant
                start == host_addr,
                end == host_addr + len,
                end <= self.spec_memory().len(),
                start <= j <= end,
                want == self.spec_memory().subrange(host_addr as int, host_addr + len),
                out@ =~= self.spec_memory().subrange(start as int, j as int),
            decreases end - j,
        {
            out.push(self.memory[j]);
            j = j + 1;
        }
        out
    }

    /// Overwrites the bytes at host address `host_addr` with `data`.
    pub fn store(&mut self, host_addr: u64, data: &Vec<u8>)
        requires
            range_within(host_addr as int, data@.len() as int, old(self).spec_memory().len() as int),
        ensures
            final(self).spec_vm_addr() == old(self).spec_vm_addr(),
            final(self).spec_writable() == old(self).spec_writable(),
            final(self).spec_memory() == old(self).spec_memory().update_subrange_with(host_addr as int, data@),
    {
        let ghost before = self.memory@;
        let size: usize = self.memory.len();
        assert(host_addr + data@.len() <= size);
        let start: usize = host_addr as usize;
        let mut i: usize = 0;
        while i < data.len()
            invariant
                range_within(host_addr as int, data@.len() as int, before.len() as int),
                i <= data@.len(),
                start == host_addr,
                start + data@.len() <= size,
                self.vm_addr == old(self).vm_addr,
                self.writable == old(self).writable,
                before == old(self).memory@,
                self.memory@.len() == before.len(),
                forall|j: int|
                    0 <= j < before.len() ==> #[trigger] self.memory@[j] == if host_addr <= j
                        < host_addr + i {
                        data@[j - host_addr]
                    } else {
                        before[j]
                    },
            decreases data@.len() - i,
        {
            self.memory.set(start + i, data[i]);
            i = i + 1;
        }
        assert(self.memory@ =~= before.update_subrange_with(host_addr as int, data@));
    }
}

} // verus!
