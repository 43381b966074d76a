use axvisor_kvm::access::{
    is_x86_inkernel_irqchip_port, is_x86_inkernel_mmio_addr, is_x86_pic_port, is_x86_pit_port, load_value, port_number,
    ram_mapping_flags, sign_extend_value, truncate_to_width, width_bytes, width_mask, AccessWidth, GuestPhysAddr, Port,
    AXKVM_MAP_RDONLY,
};
use axvisor_kvm::arith::__udivti3;
use axvisor_kvm::bytes::{
    copy_bytes, mmio_read_value, set_default_fxsave_fields, write_u16_le, write_u32_le, write_u64_le, X86KvmFxsave,
};
use axvisor_kvm::errno::{ax_result_to_errno, bridge_errno_label, EINVAL, EOPNOTSUPP};
use axvisor_kvm::fault::{alloc_error, panic as panic_line, AllocRequest, BridgeAllocator};
use axvisor_kvm::text::{i32_text, u64_text};

#[test]
fn widths_have_sizes_and_masks() {
    assert_eq!(width_bytes(AccessWidth::Byte), 1);
    assert_eq!(width_bytes(AccessWidth::Word), 2);
    assert_eq!(width_bytes(AccessWidth::Dword), 4);
    assert_eq!(width_bytes(AccessWidth::Qword), 8);
    assert_eq!(width_mask(AccessWidth::Byte), 0xff);
    assert_eq!(width_mask(AccessWidth::Word), 0xffff);
    assert_eq!(width_mask(AccessWidth::Dword), 0xffff_ffff);
    assert_eq!(width_mask(AccessWidth::Qword), u64::MAX);
}

#[test]
fn truncating_twice_is_truncating_once() {
    let v: u64 = 0x1122_3344_5566_7788;
    assert_eq!(truncate_to_width(v, AccessWidth::Word), 0x7788);
    assert_eq!(truncate_to_width(truncate_to_width(v, AccessWidth::Dword), AccessWidth::Dword), 0x5566_7788);
}

#[test]
fn sign_extension_fills_with_the_sign() {
    assert_eq!(sign_extend_value(0x80, AccessWidth::Byte), 0xffff_ffff_ffff_ff80);
    assert_eq!(sign_extend_value(0x7f, AccessWidth::Byte), 0x7f);
    assert_eq!(sign_extend_value(0x8000_0000, AccessWidth::Dword), 0xffff_ffff_8000_0000);
    assert_eq!(sign_extend_value(u64::MAX, AccessWidth::Qword), u64::MAX);
}

#[test]
fn loaded_values_fit_their_register() {
    assert_eq!(load_value(0x1ff, AccessWidth::Byte, AccessWidth::Qword, false), 0xff);
    assert_eq!(load_value(0x80, AccessWidth::Byte, AccessWidth::Dword, true), 0xffff_ffff_ffff_ff80);
}

#[test]
fn port_classes_do_not_overlap() {
    for n in 0u32..=0xffff {
        let port = Port(n as u16);
        assert!(!(is_x86_pit_port(port) && is_x86_pic_port(port)));
    }
    assert!(is_x86_pit_port(Port(0x40)));
    assert!(is_x86_pic_port(Port(0x20)));
    assert!(is_x86_inkernel_irqchip_port(Port(0x21)));
    assert!(!is_x86_inkernel_irqchip_port(Port(0x3f8 + 0x100)));
    assert_eq!(port_number(Port(0xcf8)), 0xcf8);
}

#[test]
fn interrupt_controller_pages_are_served_in_the_kernel() {
    assert!(is_x86_inkernel_mmio_addr(GuestPhysAddr(0xfec0_0000)));
    assert!(!is_x86_inkernel_mmio_addr(GuestPhysAddr(0x1000)));
}

#[test]
fn read_only_pages_cannot_be_written() {
    let rw = ram_mapping_flags(0);
    assert!(rw.read && rw.write && rw.execute);
    let ro = ram_mapping_flags(AXKVM_MAP_RDONLY);
    assert!(ro.read && !ro.write);
}

#[test]
fn division_of_wide_numbers() {
    assert_eq!(__udivti3(1000, 7), 142);
    assert_eq!(__udivti3(u128::MAX, 1), u128::MAX);
    assert_eq!(__udivti3(u128::MAX, 1 << 64), (1u128 << 64) - 1);
    assert_eq!(__udivti3(5, 9), 0);
}

#[test]
fn little_endian_store_then_load() {
    let mut bytes = [0u8; 16];
    write_u16_le(&mut bytes, 1, 0x1122);
    assert_eq!(bytes[1..3], [0x22, 0x11]);
    write_u32_le(&mut bytes, 4, 0x1122_3344);
    assert_eq!(bytes[4..8], [0x44, 0x33, 0x22, 0x11]);
    write_u64_le(&mut bytes, 8, 0x0102_0304_0506_0708);
    assert_eq!(mmio_read_value(Some(&bytes[8..16]), 8), Ok(0x0102_0304_0506_0708));
    assert_eq!(mmio_read_value(Some(&bytes[8..16]), 2), Ok(0x0708));
}

#[test]
fn reading_a_value_needs_bytes_and_a_fitting_length() {
    assert_eq!(mmio_read_value(None, 4), Err(-EINVAL));
    assert_eq!(mmio_read_value(Some(&[0u8; 16]), 9), Err(-EINVAL));
    assert_eq!(mmio_read_value(Some(&[7u8; 1]), 0), Err(-EINVAL));
}

#[test]
fn fpu_state_has_its_defaults() {
    let mut fxsave = X86KvmFxsave::zeroed();
    set_default_fxsave_fields(&mut fxsave);
    assert_eq!(fxsave.bytes[0..2], [0x7f, 0x03]);
    assert_eq!(fxsave.bytes[24..28], [0x80, 0x1f, 0, 0]);
    assert_eq!(fxsave.bytes[28..32], [0xbf, 0xff, 0, 0]);
}

#[test]
fn copied_bytes_are_read_back() {
    let mut dst = [0u8; 8];
    assert_eq!(copy_bytes(&mut dst, 2, Some(&[1, 2, 3]), 3), Ok(()));
    assert_eq!(dst, [0, 0, 1, 2, 3, 0, 0, 0]);
    assert_eq!(copy_bytes(&mut dst, 6, Some(&[1, 2, 3]), 3), Err(-EINVAL));
    assert_eq!(copy_bytes(&mut dst, 0, None, 1), Err(-EINVAL));
}

#[test]
fn numbers_have_decimal_texts() {
    assert_eq!(u64_text(0), "0");
    assert_eq!(u64_text(u64::MAX), "18446744073709551615");
    assert_eq!(i32_text(-95), "-95");
    assert_ne!(u64_text(12), u64_text(21));
}

#[test]
fn monitor_errors_become_linux_errors() {
    let ok: Result<u8, i32> = Ok(3);
    assert_eq!(ax_result_to_errno(ok), Ok(3));
    let linux: Result<(), i32> = Err(-22);
    assert_eq!(ax_result_to_errno(linux), Err(-22));
    let own: Result<(), i32> = Err(ax_errno::AxErrorKind::NoMemory.code());
    assert_eq!(ax_result_to_errno(own), Err(-12));
    let unsupported: Result<(), i32> = Err(ax_errno::AxErrorKind::InvalidInput.code());
    assert_eq!(ax_result_to_errno(unsupported), Err(-22));
}

#[test]
fn errors_have_labels() {
    let label = bridge_errno_label(-EINVAL);
    assert!(label.contains("EINVAL"), "{}", label);
    let other = bridge_errno_label(-EOPNOTSUPP);
    assert!(other.contains("EOPNOTSUPP"), "{}", other);
    assert_ne!(bridge_errno_label(-1), bridge_errno_label(-2));
    let none = bridge_errno_label(-100_000);
    assert!(!none.is_empty());
}

#[test]
fn fault_lines() {
    assert_eq!(panic_line("here"), "panic in axvisor_kvm_x86_bridge: here");
    assert_eq!(alloc_error(4096, 16), "allocation failure in axvisor_kvm_x86_bridge size=4096 align=16");
}

#[test]
fn empty_memory_requests_are_not_passed_on() {
    let a = BridgeAllocator;
    assert_eq!(a.serve_alloc(0, 8), AllocRequest::Dangling { address: 8 });
    assert_eq!(a.serve_alloc(3, 8), AllocRequest::Allocate { size: 3, align: 8 });
    assert_eq!(a.serve_dealloc(0, 8), AllocRequest::Nothing);
    assert_eq!(a.serve_dealloc(3, 8), AllocRequest::Free { align: 8 });
    assert_eq!(a.serve_realloc(0, 8, 0), AllocRequest::Dangling { address: 8 });
    assert_eq!(a.serve_realloc(0, 8, 5), AllocRequest::Allocate { size: 5, align: 8 });
    assert_eq!(a.serve_realloc(3, 8, 0), AllocRequest::Free { align: 8 });
    assert_eq!(a.serve_realloc(3, 8, 5), AllocRequest::Resize { size: 5, align: 8 });
}

#[test]
fn constants_agree_with_the_monitor() {
    assert_eq!(axvisor_kvm::vm::PAGE_SIZE_4K, ax_memory_addr::PAGE_SIZE_4K as u64);
    assert_eq!(axvisor_kvm::config::VM_TYPE_LINUX, axvmconfig::VMType::VMTLinux as usize);
}
