//! vCPU register state and the reset transition that establishes the
//! guest's initial execution environment: a cold boot into real-address
//! mode with a flat code/data model.

use vstd::prelude::*;
use crate::config::VmConfig;
use crate::config::real_mode_base;

verus! {

/// One segment register: real-mode selector and linear base address.
#[derive(Clone, Copy, Debug, PartialEq, Eq, Structural)]
pub struct SegmentRegister {
    pub selector: u16,
    pub base: u64,
}

/// The segment registers the reset touches: code, stack, data and the three
/// extra segments.
#[derive(Clone, Copy, Debug, PartialEq, Eq, Structural)]
pub struct SpecialRegisters {
    pub cs: SegmentRegister,
    pub ss: SegmentRegister,
    pub ds: SegmentRegister,
    pub es: SegmentRegister,
    pub fs: SegmentRegister,
    pub gs: SegmentRegister,
}

/// The general-purpose registers and flags the reset touches.
#[derive(Clone, Copy, Debug, PartialEq, Eq, Structural)]
pub struct GeneralRegisters {
    pub rflags: u64,
    pub rip: u64,
    pub rsp: u64,
    pub rbp: u64,
}

/// A segment as reset leaves it: the given selector, with the base at the
/// real-mode segment-to-linear translation of that selector.
pub open spec fn reset_segment(selector: u16) -> SegmentRegister {
    SegmentRegister { selector, base: real_mode_base(selector) }
}

/// The segment state reset establishes. Code, stack, data and the first two
/// extra segments get both the selector and the translated base; the last
/// extra segment (gs) deliberately gets only the selector and keeps its
/// prior base. The asymmetry is part of the host's contract: guest code
/// that addresses through gs sees whatever base the facility left there.
pub open spec fn reset_sregs(prev: SpecialRegisters, selector: u16) -> SpecialRegisters {
    SpecialRegisters {
        cs: reset_segment(selector),
        ss: reset_segment(selector),
        ds: reset_segment(selector),
        es: reset_segment(selector),
        fs: reset_segment(selector),
        gs: SegmentRegister { selector, base: prev.gs.base },
    }
}

/// The general-register state reset establishes: the configured minimum
/// legal flags, instruction pointer at zero (execution begins at the loaded
/// image's first byte, offset by the segment base), the configured
/// top-of-stack, and a zero base pointer.
pub open spec fn reset_regs(cfg: VmConfig) -> GeneralRegisters {
    GeneralRegisters { rflags: cfg.initial_rflags, rip: 0, rsp: cfg.initial_rsp, rbp: 0 }
}

/// Computes the segment state after reset from the prior state.
pub fn reset_special_registers(prev: &SpecialRegisters, cfg: &VmConfig) -> (r: SpecialRegisters)
    ensures
        r == reset_sregs(*prev, cfg.code_selector),
{
    let seg = SegmentRegister { selector: cfg.code_selector, base: cfg.segment_base() };
    SpecialRegisters {
        cs: seg,
        ss: seg,
        ds: seg,
        es: seg,
        fs: seg,
        gs: SegmentRegister { selector: cfg.code_selector, base: prev.gs.base },
    }
}

/// Computes the general-register state after reset.
pub fn reset_general_registers(cfg: &VmConfig) -> (r: GeneralRegisters)
    ensures
        r == reset_regs(*cfg),
{
    GeneralRegisters {
        rflags: cfg.initial_rflags,
        rip: 0,
        rsp: cfg.initial_rsp,
        rbp: 0,
    }
}

/// The register file of the single vCPU, as the host tracks it.
#[derive(Clone, Copy, Debug, PartialEq, Eq, Structural)]
pub struct VcpuState {
    pub sregs: SpecialRegisters,
    pub regs: GeneralRegisters,
}

impl VcpuState {
    /// Resets the register file to the guest's initial execution state. A
    /// pure state transition: no effect beyond the register file.
    pub fn reset(&mut self, cfg: &VmConfig)
        ensures
            final(self).sregs == reset_sregs(old(self).sregs, cfg.code_selector),
            final(self).regs == reset_regs(*cfg),
    {
        self.sregs = reset_special_registers(&self.sregs, cfg);
        self.regs = reset_general_registers(cfg);
    }
}

/// After reset, the code, stack, data and first two extra segments carry
/// exactly the configured selector with base selector x 16; the last extra
/// segment carries the selector but keeps its prior base; flags, instruction
/// pointer, stack pointer and base pointer are exactly the configured
/// values.
pub proof fn lemma_reset_establishes_entry_state(prev: VcpuState, cfg: VmConfig)
    ensures
        reset_sregs(prev.sregs, cfg.code_selector).cs == reset_segment(cfg.code_selector),
        reset_sregs(prev.sregs, cfg.code_selector).ss == reset_segment(cfg.code_selector),
        reset_sregs(prev.sregs, cfg.code_selector).ds == reset_segment(cfg.code_selector),
        reset_sregs(prev.sregs, cfg.code_selector).es == reset_segment(cfg.code_selector),
        reset_sregs(prev.sregs, cfg.code_selector).fs == reset_segment(cfg.code_selector),
        reset_sregs(prev.sregs, cfg.code_selector).gs.selector == cfg.code_selector,
        reset_sregs(prev.sregs, cfg.code_selector).gs.base == prev.sregs.gs.base,
        reset_segment(cfg.code_selector).base == cfg.code_selector * 16,
        reset_regs(cfg).rflags == cfg.initial_rflags,
        reset_regs(cfg).rip == 0,
        reset_regs(cfg).rsp == cfg.initial_rsp,
        reset_regs(cfg).rbp == 0,
{
}

/// Reset is idempotent: applying it to an already-reset register file
/// produces the identical state.
pub proof fn lemma_reset_idempotent(prev: VcpuState, cfg: VmConfig)
    ensures
        reset_sregs(reset_sregs(prev.sregs, cfg.code_selector), cfg.code_selector)
            == reset_sregs(prev.sregs, cfg.code_selector),
{
}

} // verus!
