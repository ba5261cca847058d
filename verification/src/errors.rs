//! Error taxonomy of the VM host.
//!
//! Environment and resource failures are fatal to the whole program; the
//! missing-image condition is the only one a caller recovers from locally.

use vstd::prelude::*;

verus! {

/// Everything that can go wrong while establishing or driving the VM.
#[derive(Clone, Copy, Debug, PartialEq, Eq, Structural)]
pub enum VmError {
    /// The host virtualization facility could not be opened.
    FacilityUnavailable,
    /// The facility refused to create a virtual machine.
    CreationFailed,
    /// Host memory backing the guest arena could not be established.
    AllocationFailed,
    /// The facility refused to create the vCPU.
    VcpuCreationFailed,
    /// A memory region or vCPU was requested on an invalid, uninitialized
    /// VM handle.
    InvalidHandle,
    /// A second memory region registration was attempted; exactly one region
    /// may ever be registered.
    RegionAlreadyRegistered,
    /// A second vCPU creation was attempted; this host drives exactly one.
    VcpuAlreadyCreated,
    /// The binary image is larger than the guest memory arena.
    ImageTooLarge,
}

} // verus!
