//! The VM-exit dispatcher: what the host does with the guest's state on each
//! exit, and whether the guest resumes or this processor leaves virtualization.

use crate::hv::{devirtualize_cpu, devirtualized_regs, devirtualize_action, vcpu};
use crate::structs::{guest_regs, KTRAP_FRAME};
use crate::utils::{lemma_svm_bits, svm_disabled};
use crate::vmcb::{EFER_SVME, VMEXIT_VMMCALL, VMEXIT_VMRUN};
use crate::vmmcall::{
    vmmcall_handler, vmmcall_outcome, VMMCALL_MAGIC, VMMCALL_MAGIC_RESPONSE, VMMCALL_UNLOAD,
};
use vstd::prelude::*;

verus! {

/// Event injected when the guest executes VMRUN: a valid general-protection
/// exception (vector 13) with an error code.
pub const EVENT_INJ_GP: u64 = 0x8000_0b0d;

/// A condition that the intercept configuration rules out; the host halts on it.
#[derive(Clone, Copy, Debug, PartialEq, Eq, Structural)]
pub enum HvFault {
    /// An exit for a reason other than VMRUN or VMMCALL, with its exit code.
    UnexpectedExit(u64),
    /// A VMMCALL with an unknown command, with that command.
    UnknownVmmcall(u64),
}

/// What the trampoline does after an exit was handled.
#[derive(Clone, Copy, Debug, PartialEq, Eq, Structural)]
pub enum ExitAction {
    /// Re-enter the guest.
    Resume,
    /// Leave virtualization: write `efer` to EFER, load `rflags`, and resume
    /// the devirtualized code with the prepared registers.
    Devirtualize { efer: u64, rflags: u64 },
}

/// The VCPU after the exit bookkeeping: the guest's RSP and next RIP recorded
/// in the host stack's trap frame.
pub open spec fn exit_recorded(v: vcpu) -> vcpu {
    vcpu {
        host_stack_layout: crate::hv::host_stack_layout {
            trap_frame: KTRAP_FRAME {
                rsp: v.guest_vmcb.state_save_area.rsp,
                rip: v.guest_vmcb.control_area.n_rip,
                ..v.host_stack_layout.trap_frame
            },
            ..v.host_stack_layout
        },
        ..v
    }
}

/// The VCPU after a guest VMRUN: a #GP pending for injection.
pub open spec fn vmrun_outcome(v: vcpu) -> vcpu {
    vcpu {
        guest_vmcb: crate::vmcb::vmcb {
            control_area: crate::vmcb::control_area {
                event_inj: EVENT_INJ_GP,
                ..v.guest_vmcb.control_area
            },
            ..v.guest_vmcb
        },
        ..v
    }
}

/// The VCPU when the guest resumes: RAX from the register block, RIP at the
/// exit's next RIP.
pub open spec fn resumed(v: vcpu, regs: guest_regs) -> vcpu {
    vcpu {
        guest_vmcb: crate::vmcb::vmcb {
            state_save_area: crate::vmcb::state_save {
                rax: regs.rax,
                rip: v.guest_vmcb.control_area.n_rip,
                ..v.guest_vmcb.state_save_area
            },
            ..v.guest_vmcb
        },
        ..v
    }
}

/// VCPU, registers and result of handling an exit of the VCPU at `address`,
/// `efer` being the processor's EFER.
pub open spec fn vmexit_outcome(v: vcpu, address: u64, efer: u64, regs: guest_regs) -> (
    vcpu,
    guest_regs,
    Result<ExitAction, HvFault>,
) {
    let v1 = exit_recorded(v);
    let r1 = guest_regs { rax: v.guest_vmcb.state_save_area.rax, ..regs };
    let code = v.guest_vmcb.control_area.exit_code;
    if code != VMEXIT_VMRUN && code != VMEXIT_VMMCALL {
        (v1, r1, Err(HvFault::UnexpectedExit(code)))
    } else {
        let handled = if code == VMEXIT_VMRUN {
            (vmrun_outcome(v1), r1, Ok(()))
        } else {
            vmmcall_outcome(v1, r1)
        };
        let v2 = handled.0;
        let r2 = handled.1;
        if handled.2 is Err {
            (v2, r2, Err(handled.2->Err_0))
        } else if v2.unload {
            (v2, devirtualized_regs(v2, address, r2), Ok(devirtualize_action(v2, efer)))
        } else {
            (resumed(v2, r2), r2, Ok(ExitAction::Resume))
        }
    }
}

/// Makes a guest VMRUN fail with a #GP.
fn vmrun_handler(vcpu_ctx: &mut vcpu)
    ensures
        *final(vcpu_ctx) == vmrun_outcome(*old(vcpu_ctx)),
{
    vcpu_ctx.guest_vmcb.control_area.event_inj = EVENT_INJ_GP;
}

/// Handles a VM-exit of the VCPU at `vcpu_address`, with `guest_regs` the
/// registers the trampoline saved and `efer` the processor's EFER.
pub fn vmexit_handler(
    vcpu_ctx: &mut vcpu,
    vcpu_address: u64,
    efer: u64,
    guest_regs: &mut guest_regs,
) -> (r: Result<ExitAction, HvFault>)
    ensures
        (*final(vcpu_ctx), *final(guest_regs), r) == vmexit_outcome(
            *old(vcpu_ctx),
            vcpu_address,
            efer,
            *old(guest_regs),
        ),
{
    guest_regs.rax = vcpu_ctx.guest_vmcb.state_save_area.rax;
    vcpu_ctx.host_stack_layout.trap_frame.rsp = vcpu_ctx.guest_vmcb.state_save_area.rsp;
    vcpu_ctx.host_stack_layout.trap_frame.rip = vcpu_ctx.guest_vmcb.control_area.n_rip;

    let code = vcpu_ctx.guest_vmcb.control_area.exit_code;
    if code == VMEXIT_VMRUN {
        vmrun_handler(vcpu_ctx);
    } else if code == VMEXIT_VMMCALL {
        match vmmcall_handler(vcpu_ctx, guest_regs) {
            Ok(()) => {},
            Err(fault) => {
                return Err(fault);
            },
        }
    } else {
        return Err(HvFault::UnexpectedExit(code));
    }

    if vcpu_ctx.unload {
        return Ok(devirtualize_cpu(vcpu_ctx, vcpu_address, efer, guest_regs));
    }
    vcpu_ctx.guest_vmcb.state_save_area.rax = guest_regs.rax;
    vcpu_ctx.guest_vmcb.state_save_area.rip = vcpu_ctx.guest_vmcb.control_area.n_rip;
    Ok(ExitAction::Resume)
}


/// A VMMCALL handshake round trip: the guest resumes past the call with the
/// handshake value in RAX, and nothing else of the VCPU changes but the exit
/// bookkeeping; the command handler itself leaves the VCPU as it was.
pub proof fn lemma_handshake_round_trip(v: vcpu, address: u64, efer: u64, regs: guest_regs)
    requires
        v.guest_vmcb.control_area.exit_code == VMEXIT_VMMCALL,
        regs.rcx == VMMCALL_MAGIC,
        !v.unload,
    ensures
        vmmcall_outcome(v, regs).0 == v,
        vmexit_outcome(v, address, efer, regs).2 == Ok::<ExitAction, HvFault>(ExitAction::Resume),
        vmexit_outcome(v, address, efer, regs).1 == (guest_regs { rax: VMMCALL_MAGIC_RESPONSE, ..regs }),
        vmexit_outcome(v, address, efer, regs).0 == resumed(
            exit_recorded(v),
            guest_regs { rax: VMMCALL_MAGIC_RESPONSE, ..regs },
        ),
        vmexit_outcome(v, address, efer, regs).0.guest_vmcb.state_save_area.rax
            == VMMCALL_MAGIC_RESPONSE,
{
}

/// An unload VMMCALL makes the dispatcher leave virtualization: the VCPU is
/// marked for unload, the registers carry the VCPU's address (low half in RAX,
/// high half in RDX), the guest's next RIP (RBX) and RSP (RCX), and EFER is
/// written back with the SVM-enable bit clear.
pub proof fn lemma_unload_devirtualizes(v: vcpu, address: u64, efer: u64, regs: guest_regs)
    requires
        v.guest_vmcb.control_area.exit_code == VMEXIT_VMMCALL,
        regs.rcx == VMMCALL_UNLOAD,
    ensures
        vmexit_outcome(v, address, efer, regs).0.unload,
        vmexit_outcome(v, address, efer, regs).2 == Ok::<ExitAction, HvFault>(
            ExitAction::Devirtualize {
                efer: svm_disabled(efer),
                rflags: v.guest_vmcb.state_save_area.rflags,
            },
        ),
        svm_disabled(efer) & EFER_SVME == 0,
        vmexit_outcome(v, address, efer, regs).1.rax == address & 0xffff_ffff,
        vmexit_outcome(v, address, efer, regs).1.rdx == address >> 32u64,
        vmexit_outcome(v, address, efer, regs).1.rbx == v.guest_vmcb.control_area.n_rip,
        vmexit_outcome(v, address, efer, regs).1.rcx == v.guest_vmcb.state_save_area.rsp,
{
    lemma_svm_bits(efer);
}

/// An exit for any reason but VMRUN or VMMCALL ends in the fault, once, and
/// the guest is not resumed: its VMCB and the unload flag stay as they were.
pub proof fn lemma_unexpected_exit_faults(v: vcpu, address: u64, efer: u64, regs: guest_regs)
    requires
        v.guest_vmcb.control_area.exit_code != VMEXIT_VMRUN,
        v.guest_vmcb.control_area.exit_code != VMEXIT_VMMCALL,
    ensures
        vmexit_outcome(v, address, efer, regs).2 == Err::<ExitAction, HvFault>(
            HvFault::UnexpectedExit(v.guest_vmcb.control_area.exit_code),
        ),
        vmexit_outcome(v, address, efer, regs).0.guest_vmcb == v.guest_vmcb,
        vmexit_outcome(v, address, efer, regs).0.unload == v.unload,
{
}

} // verus!
