//! The VM handle's lifecycle: which operations are legal in which phase.
//!
//! The handle mediates all region registration and vCPU creation. Exactly
//! one memory region is ever registered (slot 0), and exactly one vCPU is
//! ever created; requesting either on an invalid, uninitialized handle
//! fails with a distinguishable error and never silently succeeds.

use vstd::prelude::*;
use crate::errors::VmError;

verus! {

/// The registered guest memory region descriptor: the guest physical range
/// starting at `guest_phys_addr` of `memory_size` bytes, backed by host
/// memory at `userspace_addr`, at the given slot, with dirty-page logging.
#[derive(Clone, Copy, Debug, PartialEq, Eq, Structural)]
pub struct MemoryRegion {
    pub slot: u32,
    pub guest_phys_addr: u64,
    pub memory_size: u64,
    pub userspace_addr: u64,
    pub log_dirty_pages: bool,
}

/// The one region descriptor this host ever registers: slot 0, guest
/// physical base 0, dirty-page logging enabled.
pub open spec fn region_descriptor(memory_size: u64, userspace_addr: u64) -> MemoryRegion {
    MemoryRegion {
        slot: 0,
        guest_phys_addr: 0,
        memory_size,
        userspace_addr,
        log_dirty_pages: true,
    }
}

/// The host-side model of the virtual machine: whether the capability
/// handle is valid, which memory region is registered, and whether the
/// single vCPU has been created.
pub struct VirtualMachine {
    vm_valid: bool,
    region: Option<MemoryRegion>,
    vcpu_created: bool,
}

impl VirtualMachine {
    /// Whether the capability handle is valid (the facility created a VM).
    pub closed spec fn vm_valid(&self) -> bool {
        self.vm_valid
    }

    /// The registered memory region, if one has been registered.
    pub closed spec fn registered_region(&self) -> Option<MemoryRegion> {
        self.region
    }

    /// Whether the single vCPU has been created.
    pub closed spec fn vcpu_created(&self) -> bool {
        self.vcpu_created
    }

    /// Well-formedness: a region is registered, or a vCPU created, only on
    /// a valid handle.
    pub open spec fn wf(&self) -> bool {
        &&& self.registered_region() is Some ==> self.vm_valid()
        &&& self.vcpu_created() ==> self.vm_valid()
    }

    /// A handle on which VM creation never succeeded: invalid, nothing
    /// registered, nothing created.
    pub fn invalid() -> (h: VirtualMachine)
        ensures
            h.wf(),
            !h.vm_valid(),
            h.registered_region() is None,
            !h.vcpu_created(),
    {
        VirtualMachine { vm_valid: false, region: None, vcpu_created: false }
    }

    /// A handle fresh from a successful VM creation: valid, with no region
    /// registered and no vCPU yet.
    pub fn created() -> (h: VirtualMachine)
        ensures
            h.wf(),
            h.vm_valid(),
            h.registered_region() is None,
            !h.vcpu_created(),
    {
        VirtualMachine { vm_valid: true, region: None, vcpu_created: false }
    }

    /// Registers the guest memory arena as the single region: slot 0,
    /// guest physical base 0, dirty-page logging on. Fails on an invalid
    /// handle, and on any second registration — re-registration at an
    /// overlapping slot is undefined at the facility and is rejected here.
    pub fn register_memory(&mut self, memory_size: u64, userspace_addr: u64) -> (r: Result<
        MemoryRegion,
        VmError,
    >)
        ensures
            old(self).wf() ==> final(self).wf(),
            !old(self).vm_valid() ==> r == Err::<MemoryRegion, VmError>(VmError::InvalidHandle),
            old(self).vm_valid() && old(self).registered_region() is Some ==> r == Err::<
                MemoryRegion,
                VmError,
            >(VmError::RegionAlreadyRegistered),
            old(self).vm_valid() && old(self).registered_region() is None ==> r == Ok::<
                MemoryRegion,
                VmError,
            >(region_descriptor(memory_size, userspace_addr)) && final(self).registered_region()
                == Some(region_descriptor(memory_size, userspace_addr)),
            r is Err ==> final(self).registered_region() == old(self).registered_region(),
            final(self).vm_valid() == old(self).vm_valid(),
            final(self).vcpu_created() == old(self).vcpu_created(),
    {
        if !self.vm_valid {
            return Err(VmError::InvalidHandle);
        }
        if self.region.is_some() {
            return Err(VmError::RegionAlreadyRegistered);
        }
        let reg = MemoryRegion {
            slot: 0,
            guest_phys_addr: 0,
            memory_size,
            userspace_addr,
            log_dirty_pages: true,
        };
        self.region = Some(reg);
        Ok(reg)
    }

    /// Records creation of the single vCPU with the given logical id.
    /// Fails on an invalid handle, and when the vCPU already exists.
    pub fn create_vcpu(&mut self, id: u64) -> (r: Result<u64, VmError>)
        ensures
            old(self).wf() ==> final(self).wf(),
            !old(self).vm_valid() ==> r == Err::<u64, VmError>(VmError::InvalidHandle),
            old(self).vm_valid() && old(self).vcpu_created() ==> r == Err::<u64, VmError>(
                VmError::VcpuAlreadyCreated,
            ),
            old(self).vm_valid() && !old(self).vcpu_created() ==> r == Ok::<u64, VmError>(id)
                && final(self).vcpu_created(),
            r is Err ==> final(self).vcpu_created() == old(self).vcpu_created(),
            final(self).vm_valid() == old(self).vm_valid(),
            final(self).registered_region() == old(self).registered_region(),
    {
        if !self.vm_valid {
            return Err(VmError::InvalidHandle);
        }
        if self.vcpu_created {
            return Err(VmError::VcpuAlreadyCreated);
        }
        self.vcpu_created = true;
        Ok(id)
    }
}

} // verus!
