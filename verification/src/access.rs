//! Guest accesses: widths, ports, addresses and mapping flags.
use vstd::prelude::*;

verus! {

/// The width of a guest access.
#[derive(Clone, Copy, Debug, PartialEq, Eq, Structural)]
pub enum AccessWidth {
    Byte,
    Word,
    Dword,
    Qword,
}

impl AccessWidth {
    /// The width in bytes.
    pub open spec fn bytes(self) -> u32 {
        match self {
            AccessWidth::Byte => 1,
            AccessWidth::Word => 2,
            AccessWidth::Dword => 4,
            AccessWidth::Qword => 8,
        }
    }

    /// One more than the largest value of this width.
    pub open spec fn modulus(self) -> int {
        match self {
            AccessWidth::Byte => 0x100,
            AccessWidth::Word => 0x1_0000,
            AccessWidth::Dword => 0x1_0000_0000,
            AccessWidth::Qword => 0x1_0000_0000_0000_0000,
        }
    }
}

/// An I/O port number.
#[derive(Clone, Copy, Debug, PartialEq, Eq, Structural)]
pub struct Port(pub u16);

/// A guest physical address.
#[derive(Clone, Copy, Debug, PartialEq, Eq, Structural)]
pub struct GuestPhysAddr(pub u64);

/// The rights and attributes of a guest memory mapping or access.
#[derive(Clone, Copy, Debug, PartialEq, Eq, Structural)]
pub struct MappingFlags {
    pub read: bool,
    pub write: bool,
    pub execute: bool,
    pub user: bool,
    pub device: bool,
    pub uncached: bool,
}

/// The width of an access in bytes.
pub fn width_bytes(width: AccessWidth) -> (r: u32)
    ensures
        r == width.bytes(),
{
    match width {
        AccessWidth::Byte => 1,
        AccessWidth::Word => 2,
        AccessWidth::Dword => 4,
        AccessWidth::Qword => 8,
    }
}

/// The mask that keeps the bits of a width.
pub fn width_mask(width: AccessWidth) -> (r: u64)
    ensures
        r == width.modulus() - 1,
{
    match width {
        AccessWidth::Byte => 0xff,
        AccessWidth::Word => 0xffff,
        AccessWidth::Dword => 0xffff_ffff,
        AccessWidth::Qword => u64::MAX,
    }
}

/// `value` cut to a width.
pub open spec fn truncated(value: u64, width: AccessWidth) -> u64 {
    (value as int % width.modulus()) as u64
}

/// `value` with the sign bit of a width repeated above it.
pub open spec fn sign_extended(value: u64, width: AccessWidth) -> u64 {
    let low = value as int % width.modulus();
    if low >= width.modulus() / 2 {
        (low - width.modulus() + 0x1_0000_0000_0000_0000) as u64
    } else {
        low as u64
    }
}

proof fn lemma_masks(value: u64)
    by (bit_vector)
    ensures
        value & 0xff == value % 0x100,
        value & 0xffff == value % 0x1_0000,
        value & 0xffff_ffff == value % 0x1_0000_0000,
        value & 0xffff_ffff_ffff_ffff == value,
{
}

/// Keeps the bits of a width.
pub fn truncate_to_width(value: u64, width: AccessWidth) -> (r: u64)
    ensures
        r == truncated(value, width),
{
    proof {
        lemma_masks(value);
    }
    value & width_mask(width)
}

/// Extends a value of the given width by its sign bit.
pub fn sign_extend_value(value: u64, width: AccessWidth) -> (r: u64)
    ensures
        r == sign_extended(value, width),
{
    match width {
        AccessWidth::Byte => {
            let low: u64 = value % 0x100;
            if low >= 0x80 { low + 0xffff_ffff_ffff_ff00 } else { low }
        },
        AccessWidth::Word => {
            let low: u64 = value % 0x1_0000;
            if low >= 0x8000 { low + 0xffff_ffff_ffff_0000 } else { low }
        },
        AccessWidth::Dword => {
            let low: u64 = value % 0x1_0000_0000;
            if low >= 0x8000_0000 { low + 0xffff_ffff_0000_0000 } else { low }
        },
        AccessWidth::Qword => value,
    }
}

/// What a guest register holds after a read of `raw` with the given widths: the
/// value cut to the access width, then sign-extended from it or cut to the
/// register's width.
pub open spec fn loaded_value(raw: u64, width: AccessWidth, reg_width: AccessWidth, signed_ext: bool) -> u64 {
    if signed_ext {
        sign_extended(truncated(raw, width), width)
    } else {
        truncated(truncated(raw, width), reg_width)
    }
}

/// The value for the guest register that a read fills.
pub fn load_value(raw: u64, width: AccessWidth, reg_width: AccessWidth, signed_ext: bool) -> (r: u64)
    ensures
        r == loaded_value(raw, width, reg_width, signed_ext),
{
    let masked: u64 = truncate_to_width(raw, width);
    if signed_ext {
        sign_extend_value(masked, width)
    } else {
        truncate_to_width(masked, reg_width)
    }
}

/// The number of a port.
pub fn port_number(port: Port) -> (r: u64)
    ensures
        r == port.0,
{
    port.0 as u64
}

/// The ports of the interval timer.
pub open spec fn pit_port(n: u16) -> bool {
    0x40 <= n <= 0x43 || n == 0x61
}

/// The ports of the two interrupt controllers and their trigger-mode registers.
pub open spec fn pic_port(n: u16) -> bool {
    n == 0x20 || n == 0x21 || n == 0xa0 || n == 0xa1 || n == 0x4d0 || n == 0x4d1
}

/// The ports of the first serial line.
pub open spec fn com1_port(n: u16) -> bool {
    0x3f8 <= n <= 0x3ff
}

/// The ports served in the kernel.
pub open spec fn inkernel_port(n: u16) -> bool {
    pit_port(n) || pic_port(n) || com1_port(n)
}

/// The addresses of the I/O APIC page, served in the kernel.
pub open spec fn inkernel_mmio(addr: u64) -> bool {
    0xfec0_0000 <= addr <= 0xfec0_0fff
}

/// Whether a port is served in the kernel.
pub fn is_x86_inkernel_irqchip_port(port: Port) -> (r: bool)
    ensures
        r == inkernel_port(port.0),
{
    let n: u16 = port.0;
    n == 0x20 || n == 0x21 || (0x40 <= n && n <= 0x43) || n == 0x61 || n == 0xa0 || n == 0xa1 || n == 0x4d0 || n
        == 0x4d1 || (0x3f8 <= n && n <= 0x3ff)
}

/// Whether a port belongs to the interval timer.
pub fn is_x86_pit_port(port: Port) -> (r: bool)
    ensures
        r == pit_port(port.0),
{
    (0x40 <= port.0 && port.0 <= 0x43) || port.0 == 0x61
}

/// Whether a port belongs to the interrupt controllers.
pub fn is_x86_pic_port(port: Port) -> (r: bool)
    ensures
        r == pic_port(port.0),
{
    let n: u16 = port.0;
    n == 0x20 || n == 0x21 || n == 0xa0 || n == 0xa1 || n == 0x4d0 || n == 0x4d1
}

/// Whether a guest physical address is served in the kernel.
pub fn is_x86_inkernel_mmio_addr(addr: GuestPhysAddr) -> (r: bool)
    ensures
        r == inkernel_mmio(addr.0),
{
    0xfec0_0000 <= addr.0 && addr.0 <= 0xfec0_0fff
}

/// The map flag that asks for a read-only leaf.
pub const AXKVM_MAP_RDONLY: u32 = 0x8000_0000;

/// The memory slot flag for a read-only slot.
pub const KVM_MEM_READONLY: u32 = 0x2;

/// Whether the flags of a map request carry a read-only bit.
pub open spec fn read_only_request(kvm_flags: u32) -> bool {
    kvm_flags >= 0x8000_0000 || (kvm_flags / 2) % 2 == 1
}

proof fn lemma_read_only_bits(flags: u32)
    by (bit_vector)
    ensures
        (flags & (0x8000_0000u32 | 0x2u32) == 0) == !(flags >= 0x8000_0000 || (flags / 2) % 2 == 1),
{
}

/// The rights of a guest RAM page: readable and executable from user mode, and
/// writable unless a read-only bit is set.
pub fn ram_mapping_flags(kvm_flags: u32) -> (flags: MappingFlags)
    ensures
        flags == (MappingFlags {
            read: true,
            write: !read_only_request(kvm_flags),
            execute: true,
            user: true,
            device: false,
            uncached: false,
        }),
{
    let mut flags = MappingFlags {
        read: true,
        write: false,
        execute: true,
        user: true,
        device: false,
        uncached: false,
    };
    proof {
        lemma_read_only_bits(kvm_flags);
    }
    if (kvm_flags & (AXKVM_MAP_RDONLY | KVM_MEM_READONLY)) == 0 {
        flags.write = true;
    }
    flags
}

/// The port classes that are served in the kernel do not overlap.
pub proof fn port_classes_are_disjoint(n: u16)
    ensures
        !(pit_port(n) && pic_port(n)),
        !(pit_port(n) && com1_port(n)),
        !(pic_port(n) && com1_port(n)),
{
}

/// Sign extension keeps the value modulo the width, and gives back a value that
/// already fits below the sign bit.
pub proof fn sign_extension_keeps_low_bits(value: u64, width: AccessWidth)
    ensures
        truncated(sign_extended(value, width), width) == truncated(value, width),
        (value as int) < width.modulus() / 2 ==> sign_extended(value, width) == value,
        sign_extended(sign_extended(value, width), width) == sign_extended(value, width),
{
}

/// Cutting to a width twice is cutting once, and a value that fits is unchanged.
pub proof fn truncation_is_idempotent(value: u64, width: AccessWidth)
    ensures
        truncated(truncated(value, width), width) == truncated(value, width),
        (value as int) < width.modulus() ==> truncated(value, width) == value,
{
}

} // verus!
