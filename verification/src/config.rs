//! Fixed configuration of the minimal VM: arena size, guest entry constants.
//!
//! The values are compile-time defaults lifted into an explicit structure so
//! that callers (and tests) can vary them without recompilation.

use vstd::prelude::*;

verus! {

/// Default size of the guest memory arena, in bytes.
pub const DEFAULT_RAM_SIZE: usize = 512000000;

/// Default real-mode segment selector for the guest's entry segment.
pub const DEFAULT_CODE_SELECTOR: u16 = 0x1000;

/// Minimum legal flags value: only the architecturally reserved bit is set.
pub const DEFAULT_RFLAGS: u64 = 0x2;

/// Default initial stack pointer (top-of-stack constant).
pub const DEFAULT_RSP: u64 = 0xffffffff;

/// Default logical id of the single vCPU.
pub const DEFAULT_VCPU_ID: u64 = 0;

/// Real-mode segment-to-linear translation: a segment selector addresses the
/// linear byte `selector * 16`.
pub open spec fn real_mode_base(selector: u16) -> u64 {
    (selector * 16) as u64
}

/// Configuration of the VM: all addresses and sizes the host uses.
#[derive(Clone, Copy, Debug, PartialEq, Eq, Structural)]
pub struct VmConfig {
    /// Size of the guest memory arena in bytes.
    pub ram_size: usize,
    /// Segment selector loaded into the guest's segment registers at reset.
    pub code_selector: u16,
    /// Initial flags register value.
    pub initial_rflags: u64,
    /// Initial stack pointer.
    pub initial_rsp: u64,
    /// Logical id of the single vCPU.
    pub vcpu_id: u64,
}

impl VmConfig {
    /// The configuration with every field at its named default.
    pub open spec fn standard_spec() -> VmConfig {
        VmConfig {
            ram_size: DEFAULT_RAM_SIZE,
            code_selector: DEFAULT_CODE_SELECTOR,
            initial_rflags: DEFAULT_RFLAGS,
            initial_rsp: DEFAULT_RSP,
            vcpu_id: DEFAULT_VCPU_ID,
        }
    }

    /// Linear base address of the guest's entry segment.
    pub fn segment_base(&self) -> (b: u64)
        ensures
            b == real_mode_base(self.code_selector),
    {
        (self.code_selector as u64) * 16
    }
}

impl Default for VmConfig {
    /// The default configuration, field for field the named constants.
    fn default() -> (c: VmConfig)
        ensures
            c == VmConfig::standard_spec(),
    {
        VmConfig {
            ram_size: DEFAULT_RAM_SIZE,
            code_selector: DEFAULT_CODE_SELECTOR,
            initial_rflags: DEFAULT_RFLAGS,
            initial_rsp: DEFAULT_RSP,
            vcpu_id: DEFAULT_VCPU_ID,
        }
    }
}

} // verus!
