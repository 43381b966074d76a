//! Widths, loads and the addresses that are served in the kernel.
use vstd::arithmetic::div_mod::lemma_mod_mod;
use vstd::prelude::*;

use crate::access::{
    is_x86_inkernel_irqchip_port, is_x86_inkernel_mmio_addr, is_x86_pic_port, is_x86_pit_port, load_value, port_number,
    ram_mapping_flags, sign_extend_value, truncate_to_width, width_bytes, width_mask, AccessWidth, GuestPhysAddr,
    loaded_value, sign_extended, truncated, MappingFlags, Port,
};
use crate::bytes::pow256;

verus! {

/// `value` is what is left of `raw` below a modulus.
pub open spec fn is_rest(raw: int, modulus: int, value: int) -> bool {
    &&& 0 <= value < modulus
    &&& (raw - value) % modulus == 0
}

/// The largest number that fits below both moduli.
pub open spec fn smaller(a: int, b: int) -> int {
    if a < b {
        a
    } else {
        b
    }
}

/// `value` is what a register holds after a read of `raw`: an unsigned read leaves
/// the low bits that fit both the access and the register, and a signed read leaves
/// the number between minus and plus half the access's range that agrees with them.
pub open spec fn is_load(raw: u64, width: AccessWidth, reg_width: AccessWidth, signed_ext: bool, value: u64) -> bool {
    let m = pow256(width.bytes() as nat);
    if signed_ext {
        let signed = if value as int >= 0x8000_0000_0000_0000 {
            value - 0x1_0000_0000_0000_0000
        } else {
            value as int
        };
        -m <= 2 * signed < m && (raw - signed) % m == 0
    } else {
        is_rest(raw as int, smaller(m, pow256(reg_width.bytes() as nat)), value as int)
    }
}

proof fn lemma_moduli(width: AccessWidth)
    ensures
        width.modulus() == pow256(width.bytes() as nat),
        pow256(1) == 0x100,
        pow256(2) == 0x1_0000,
        pow256(4) == 0x1_0000_0000,
        pow256(8) == 0x1_0000_0000_0000_0000,
{
    reveal_with_fuel(pow256, 9);
}

pub(crate) proof fn lemma_truncated(raw: u64, width: AccessWidth)
    ensures
        is_rest(raw as int, pow256(width.bytes() as nat), truncated(raw, width) as int),
{
    lemma_moduli(width);
    match width {
        AccessWidth::Byte => {},
        AccessWidth::Word => {},
        AccessWidth::Dword => {},
        AccessWidth::Qword => {},
    }
}

pub(crate) proof fn lemma_sign_extended(raw: u64, width: AccessWidth)
    ensures
        is_load(raw, width, AccessWidth::Qword, true, sign_extended(raw, width)),
{
    lemma_moduli(width);
    match width {
        AccessWidth::Byte => {},
        AccessWidth::Word => {},
        AccessWidth::Dword => {},
        AccessWidth::Qword => {},
    }
}

proof fn lemma_cut_twice(raw: u64, width: AccessWidth, reg_width: AccessWidth)
    ensures
        truncated(truncated(raw, width), reg_width) == (if reg_width.modulus() < width.modulus() {
            truncated(raw, reg_width)
        } else {
            truncated(raw, width)
        }),
{
    let x = raw as int;
    match (width, reg_width) {
        (AccessWidth::Word, AccessWidth::Byte) => {
            lemma_mod_mod(x, 0x100, 0x100);
        },
        (AccessWidth::Dword, AccessWidth::Byte) => {
            lemma_mod_mod(x, 0x100, 0x100_0000);
        },
        (AccessWidth::Dword, AccessWidth::Word) => {
            lemma_mod_mod(x, 0x1_0000, 0x1_0000);
        },
        _ => {},
    }
}

proof fn lemma_extend_cut(raw: u64, width: AccessWidth)
    ensures
        sign_extended(truncated(raw, width), width) == sign_extended(raw, width),
{
}

pub(crate) proof fn lemma_loaded(raw: u64, width: AccessWidth, reg_width: AccessWidth, signed_ext: bool)
    ensures
        is_load(raw, width, reg_width, signed_ext, loaded_value(raw, width, reg_width, signed_ext)),
{
    lemma_moduli(width);
    lemma_moduli(reg_width);
    if signed_ext {
        lemma_extend_cut(raw, width);
        lemma_sign_extended(raw, width);
    } else {
        lemma_cut_twice(raw, width, reg_width);
        lemma_truncated(raw, width);
        lemma_truncated(raw, reg_width);
    }
}

/// Each width has twice the bytes of the one before it, a byte has one, and the
/// mask of a width has all the bits of its bytes and no other.
pub proof fn widths_double(r: u32, mask: u64, width: AccessWidth)
    requires
        call_ensures(width_bytes, (width,), r),
        call_ensures(width_mask, (width,), mask),
    ensures
        r == width.bytes(),
        AccessWidth::Byte.bytes() == 1,
        AccessWidth::Word.bytes() == 2 * AccessWidth::Byte.bytes(),
        AccessWidth::Dword.bytes() == 2 * AccessWidth::Word.bytes(),
        AccessWidth::Qword.bytes() == 2 * AccessWidth::Dword.bytes(),
        mask + 1 == pow256(r as nat),
        width.modulus() == pow256(r as nat),
{
    lemma_moduli(width);
}

/// A load gives what the register is to hold: the value is determined by the bits
/// that were read, the widths and the extension.
pub proof fn load_is_what_was_read(raw: u64, width: AccessWidth, reg_width: AccessWidth, signed_ext: bool, value: u64)
    requires
        call_ensures(load_value, (raw, width, reg_width, signed_ext), value),
    ensures
        is_load(raw, width, reg_width, signed_ext, value),
{
    lemma_loaded(raw, width, reg_width, signed_ext);
}

/// Cutting to a width keeps the low bits and nothing else.
pub proof fn truncation_keeps_the_low_bits(raw: u64, width: AccessWidth, value: u64)
    requires
        call_ensures(truncate_to_width, (raw, width), value),
    ensures
        is_rest(raw as int, pow256(width.bytes() as nat), value as int),
{
    lemma_truncated(raw, width);
}

/// Sign extension of a value is a signed load of it.
pub proof fn sign_extension_is_a_signed_load(raw: u64, width: AccessWidth, value: u64)
    requires
        call_ensures(sign_extend_value, (raw, width), value),
    ensures
        is_load(raw, width, AccessWidth::Qword, true, value),
{
    lemma_sign_extended(raw, width);
}

/// The ports of a chip: `count` of them from its base on.
pub open spec fn chip_port(number: u64, base: int, count: int) -> bool {
    base <= number < base + count
}

/// A port belongs to the interval timer, to an interrupt controller or to the first
/// serial line by its distance from the base of that chip, and only those are
/// served in the kernel.
pub proof fn kernel_ports_are_those_of_the_chips(port: Port, pit: bool, pic: bool, served: bool, number: u64)
    requires
        call_ensures(is_x86_pit_port, (port,), pit),
        call_ensures(is_x86_pic_port, (port,), pic),
        call_ensures(is_x86_inkernel_irqchip_port, (port,), served),
        call_ensures(port_number, (port,), number),
    ensures
        number == port.0,
        pit <==> chip_port(number, 0x40, 4) || chip_port(number, 0x61, 1),
        pic <==> chip_port(number, 0x20, 2) || chip_port(number, 0xa0, 2) || chip_port(number, 0x4d0, 2),
        served <==> pit || pic || chip_port(number, 0x3f8, 8),
{
}

/// An address is served in the kernel exactly where its page is that of the I/O
/// APIC.
pub proof fn kernel_addresses_are_one_page(addr: GuestPhysAddr, served: bool)
    requires
        call_ensures(is_x86_inkernel_mmio_addr, (addr,), served),
    ensures
        served <==> addr.0 - addr.0 % 0x1000 == 0xfec0_0000,
{
}

/// A page can be written unless one of the two read-only bits of its flags is set;
/// it can be read and executed from user mode in any case.
pub proof fn pages_are_writable_unless_read_only(kvm_flags: u32, flags: MappingFlags)
    requires
        call_ensures(ram_mapping_flags, (kvm_flags,), flags),
    ensures
        flags.write <==> kvm_flags & 0x8000_0000u32 == 0 && kvm_flags & 0x2u32 == 0,
        flags.read && flags.execute && flags.user,
        !flags.device && !flags.uncached,
{
    assert((kvm_flags & 0x8000_0000u32 == 0) == !(kvm_flags >= 0x8000_0000)) by (bit_vector);
    assert((kvm_flags & 0x2u32 == 0) == !((kvm_flags / 2) % 2 == 1)) by (bit_vector);
}

} // verus!
