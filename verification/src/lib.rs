//! A minimal virtual-machine host library.
//!
//! The crate holds the decision logic of a single-vCPU VM host: allocating
//! and filling the guest memory arena, computing the vCPU's initial register
//! state, tracking the VM handle's lifecycle, and classifying the reasons
//! guest execution returns to the host. The host-kernel virtualization
//! facility itself is an external collaborator driven by unverified glue.

pub mod config;
pub mod errors;
pub mod exit;
pub mod memory;
pub mod regs;
pub mod vm;
