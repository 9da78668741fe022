#![allow(non_camel_case_types)]

//! A minimal AMD-V (SVM) hypervisor core that virtualizes an already running
//! host processor by processor: VMCB layout and setup, the VM-exit dispatcher,
//! the VMMCALL control channel and the per-processor bookkeeping of the
//! virtualize / devirtualize sequence.

pub mod vmcb;
pub mod structs;
pub mod segments;
pub mod hv;
pub mod utils;
pub mod vmexit;
pub mod vmmcall;
