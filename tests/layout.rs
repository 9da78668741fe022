use svm_hv::hv::vcpu;
use svm_hv::structs::{guest_regs, KTRAP_FRAME, KERNEL_STACK_SIZE, KTRAP_FRAME_SIZE, STACK_CONTENTS_SIZE};
use svm_hv::vmcb::{vmcb, CONTROL_AREA_SIZE, PAGE_SIZE, STATE_SAVE_SIZE};

#[test]
fn layout_constants() {
    assert_eq!(CONTROL_AREA_SIZE, 1024);
    assert_eq!(STATE_SAVE_SIZE, 0x298);
    assert_eq!(PAGE_SIZE, 4096);
    assert_eq!(KERNEL_STACK_SIZE, 0x6000);
    assert_eq!(KTRAP_FRAME_SIZE, 400);
    assert_eq!(STACK_CONTENTS_SIZE, 0x6000 - 48 - 400);
    assert_eq!(STACK_CONTENTS_SIZE + KTRAP_FRAME_SIZE + 6 * 8, KERNEL_STACK_SIZE);
}

#[test]
fn zeroed_vcpu_is_zero_but_markers() {
    let v = Box::new(vcpu::zeroed());
    let h = &v.host_stack_layout;
    assert!(h.stack_contents.iter().all(|b| *b == 0));
    assert_eq!((h.trap_frame.rip, h.trap_frame.rsp, h.trap_frame.xmm5), (0, 0, 0));
    assert_eq!((h.guest_vmcb_pa, h.host_vmcb_pa, h.self_data, h.shared_data), (0, 0, 0, 0));
    assert_eq!((h.padding_1, h.reserved_1), (u64::MAX, u64::MAX));
    assert!(v.host_state_area.iter().all(|b| *b == 0));
    assert!(v.reserved.iter().all(|b| *b == 0));
    assert_eq!(v.guest_vmcb.control_area.intercept_misc2, 0);
    assert_eq!(v.host_vmcb.state_save_area.efer, 0);
    assert!(!v.unload);
}

#[test]
fn zeroed_vmcb_and_trap_frame() {
    let m = Box::new(vmcb::zeroed());
    assert!(m.reserved.iter().all(|b| *b == 0));
    assert!(m.control_area.reserved4.iter().all(|b| *b == 0));
    assert_eq!(m.control_area.guest_asid, 0);
    assert_eq!(m.state_save_area.gpat, 0);
    let t = KTRAP_FRAME::zeroed();
    assert_eq!((t.p1_home, t.e_flags, t.fill_1, t.seg_ss), (0, 0, [0, 0], 0));
}

#[test]
fn guest_regs_are_sixteen_registers() {
    let r = guest_regs::zeroed();
    assert_eq!(r, guest_regs::default());
    assert_eq!((r.rax, r.r15), (0, 0));
}
