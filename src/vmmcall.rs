//! The guest-to-host command channel: a command code in RCX, a result in RAX.

use crate::hv::vcpu;
use crate::structs::guest_regs;
use crate::vmexit::HvFault;
use vstd::prelude::*;

verus! {

/// Command that asks the host to leave virtualization on this processor.
pub const VMMCALL_UNLOAD: u64 = 0x10;
/// Command that asks the host for the handshake value.
pub const VMMCALL_MAGIC: u64 = 1;
/// The handshake value returned in RAX for `VMMCALL_MAGIC`.
pub const VMMCALL_MAGIC_RESPONSE: u64 = 0x1337;

/// VCPU, registers and result after the VMMCALL command in `regs.rcx`.
pub open spec fn vmmcall_outcome(v: vcpu, regs: guest_regs) -> (vcpu, guest_regs, Result<
    (),
    HvFault,
>) {
    if regs.rcx == VMMCALL_MAGIC {
        (v, guest_regs { rax: VMMCALL_MAGIC_RESPONSE, ..regs }, Ok(()))
    } else if regs.rcx == VMMCALL_UNLOAD {
        (vcpu { unload: true, ..v }, regs, Ok(()))
    } else {
        (v, regs, Err(HvFault::UnknownVmmcall(regs.rcx)))
    }
}

/// Carries out the VMMCALL command in RCX: the handshake writes its value to
/// RAX and changes no VCPU state; unload sets the VCPU's `unload` flag; any
/// other command is a fault and changes nothing.
pub fn vmmcall_handler(vcpu_ctx: &mut vcpu, guest_regs: &mut guest_regs) -> (r: Result<(), HvFault>)
    ensures
        (*final(vcpu_ctx), *final(guest_regs), r) == vmmcall_outcome(*old(vcpu_ctx), *old(guest_regs)),
{
    let command = guest_regs.rcx;
    if command == VMMCALL_MAGIC {
        guest_regs.rax = VMMCALL_MAGIC_RESPONSE;
        Ok(())
    } else if command == VMMCALL_UNLOAD {
        vcpu_ctx.unload = true;
        Ok(())
    } else {
        Err(HvFault::UnknownVmmcall(command))
    }
}

} // verus!
