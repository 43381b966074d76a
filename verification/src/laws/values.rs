//! Numbers as text, division, error numbers, log lines, memory requests and the
//! configuration of a machine.
use vstd::prelude::*;

use crate::arith::__udivti3;
use crate::boot::BootVm;
use crate::config::{
    build_axvm_config, device_list, find_primary_vcpu_entry, primary_entry_from, EmulatedDevice, InterruptMode, VmConfig,
};
use crate::errno::{
    ax_error_name_of, ax_result_to_errno, bridge_errno_label, is_ax_error_code, linux_error_name_of,
};
use crate::fault::{alloc_error, AllocRequest, BridgeAllocator};
use crate::laws::vm::vm_there;
use crate::state::{BackendVcpu, Bridge};
use crate::text::{decimal, i32_text, u64_text};

verus! {

/// The number that decimal digits stand for.
pub open spec fn number_of(text: Seq<char>) -> int
    decreases text.len(),
{
    if text.len() == 0 {
        0
    } else {
        10 * number_of(text.drop_last()) + (text.last() as int - '0' as int)
    }
}

/// Decimal digits, and no zero before others.
pub open spec fn is_decimal(text: Seq<char>) -> bool {
    &&& text.len() > 0
    &&& forall|i: int| 0 <= i < text.len() ==> '0' as int <= #[trigger] text[i] as int <= '9' as int
    &&& text.len() > 1 ==> text[0] != '0'
}

pub(crate) proof fn lemma_decimal(n: nat)
    ensures
        is_decimal(decimal(n)),
        number_of(decimal(n)) == n,
    decreases n,
{
    let text = decimal(n);
    if n < 10 {
        assert(text.drop_last() =~= seq![]);
        assert(text.last() as int == n + 48);
        assert(number_of(text.drop_last()) == 0);
    } else {
        lemma_decimal(n / 10);
        let rest = decimal(n / 10);
        assert(text.drop_last() =~= rest);
        assert(text.last() as int == n % 10 + 48);
        assert forall|i: int| 0 <= i < text.len() implies '0' as int <= #[trigger] text[i] as int <= '9' as int by {
            if i < rest.len() {
                assert(text[i] == rest[i]);
            }
        }
        assert(text[0] == rest[0]);
        if rest.len() == 1 {
            assert(rest.drop_last() =~= seq![]);
            assert(number_of(rest.drop_last()) == 0);
            assert(rest.last() == rest[0]);
            assert(rest[0] != '0') by {
                if rest[0] == '0' {
                    assert(number_of(rest) == 0);
                }
            }
        }
    }
}

/// The text of a number stands for that number.
pub proof fn text_stands_for_its_number(v: u64, w: i32, text: String, signed: String)
    requires
        call_ensures(u64_text, (v,), text),
        call_ensures(i32_text, (w,), signed),
    ensures
        is_decimal(text@) && number_of(text@) == v,
        w >= 0 ==> is_decimal(signed@) && number_of(signed@) == w,
        w < 0 ==> signed@.len() > 0 && signed@[0] == '-' && is_decimal(signed@.skip(1)) && number_of(signed@.skip(1)) == -w,
{
    lemma_decimal(v as nat);
    if w >= 0 {
        lemma_decimal(w as nat);
    } else {
        lemma_decimal((-w) as nat);
        reveal_strlit("-");
        assert(signed@.skip(1) =~= decimal((-w) as nat));
    }
}

/// A quotient is how often the divisor fits; nothing fits a divisor of zero.
pub proof fn quotient_is_how_often_it_fits(n: u128, d: u128, q: u128)
    requires
        call_ensures(__udivti3, (n, d), q),
    ensures
        d == 0 ==> q == 0,
        d > 0 ==> q * d <= n && n < (q + 1) * d,
{
    if d > 0 {
        vstd::arithmetic::div_mod::lemma_fundamental_div_mod(n as int, d as int);
        let m = n as int % d as int;
        assert(d as int * q as int == q as int * d as int) by (nonlinear_arith);
        assert((q + 1) * d == q * d + d) by (nonlinear_arith);
    }
}

/// A value is handed on, and an error stays an error: a negative Linux error number, and
/// the same one where it was one.
pub proof fn error_stays_an_error<T>(result: Result<T, i32>, r: Result<T, i32>)
    requires
        result matches Err(code) ==> is_ax_error_code(code as int),
        call_ensures(ax_result_to_errno::<T>, (result,), r),
    ensures
        result matches Ok(value) ==> r == Ok::<T, i32>(value),
        result matches Err(code) ==> (r matches Err(e) && -133 <= e < 0 && (code < 0 ==> e == code)),
{
}

/// An error is named in a log as the Linux error with its negated number, else as the
/// monitor's error with its code, else by its number.
pub proof fn error_is_named_by_its_number(err: i32, label: String, text: String)
    requires
        err != i32::MIN,
        call_ensures(bridge_errno_label, (err,), label),
        call_ensures(i32_text, (err,), text),
    ensures
        -133 <= err <= -1 && err != -41 && err != -58 ==> label@ == linux_error_name_of((-err) as i32),
        1 <= err <= 43 ==> label@ == ax_error_name_of(err),
        err < -133 || err == -41 || err == -58 || err == 0 || err > 43 ==> label@ == "raw_errno="@ + text@,
{
}

/// The lines that are logged name what happened.
pub proof fn fault_lines_name_what_happened(info: &str, size: usize, align: usize, p: String, a: String)
    requires
        call_ensures(crate::fault::panic, (info,), p),
        call_ensures(alloc_error, (size, align), a),
    ensures
        p@.len() == 33 + info@.len(),
        p@.skip(33) == info@,
        exists|s: Seq<char>, t: Seq<char>|
            {
                &&& is_decimal(s) && number_of(s) == size
                &&& is_decimal(t) && number_of(t) == align
                &&& a@ == #[trigger] ("allocation failure in axvisor_kvm_x86_bridge size="@ + s + " align="@ + t)
            },
{
    reveal_strlit("panic in axvisor_kvm_x86_bridge: ");
    assert(p@.skip(33) =~= info@);
    lemma_decimal(size as nat);
    lemma_decimal(align as nat);
    assert(a@ == "allocation failure in axvisor_kvm_x86_bridge size="@ + decimal(size as nat) + " align="@ + decimal(
        align as nat,
    ));
}

/// An empty request needs no memory of the host, and every other one asks for exactly the
/// size and alignment that it names; memory that was had is given back or resized.
pub proof fn memory_is_asked_for_as_named(
    allocator: &BridgeAllocator,
    size: usize,
    align: usize,
    new_size: usize,
    got: AllocRequest,
    freed: AllocRequest,
    resized: AllocRequest,
)
    requires
        call_ensures(BridgeAllocator::serve_alloc, (allocator, size, align), got),
        call_ensures(BridgeAllocator::serve_dealloc, (allocator, size, align), freed),
        call_ensures(BridgeAllocator::serve_realloc, (allocator, size, align, new_size), resized),
    ensures
        size == 0 ==> {
            &&& got == (AllocRequest::Dangling { address: align })
            &&& freed is Nothing
            &&& new_size == 0 ==> resized == got
            &&& new_size > 0 ==> resized == (AllocRequest::Allocate { size: new_size, align })
        },
        size > 0 ==> {
            &&& got == (AllocRequest::Allocate { size, align })
            &&& freed == (AllocRequest::Free { align })
            &&& new_size == 0 ==> resized == freed
            &&& new_size > 0 ==> resized == (AllocRequest::Resize { size: new_size, align })
        },
{
}

/// Where a vCPU record starts its VM, if it is that of the VM's first vCPU: at the register
/// that was set, or else at the run state's.
pub open spec fn starts_at(v: BackendVcpu, vm: u64) -> u64 {
    if !(v.in_use && v.vm_handle == vm && v.id == 0) {
        0
    } else if v.regs.rip != 0 {
        v.regs.rip
    } else {
        v.rip
    }
}

proof fn lemma_entry(s: Seq<BackendVcpu>, vm: u64, from: int)
    requires
        0 <= from <= s.len(),
    ensures
        ({
            let entry = primary_entry_from(s, vm, from);
            &&& entry == 0 ==> forall|i: int| from <= i < s.len() ==> starts_at(#[trigger] s[i], vm) == 0
            &&& entry != 0 ==> exists|i: int|
                from <= i < s.len() && starts_at(#[trigger] s[i], vm) == entry && forall|j: int|
                    from <= j < i ==> starts_at(#[trigger] s[j], vm) == 0
        }),
    decreases s.len() - from,
{
    if from < s.len() {
        assert(starts_at(s[from], vm) == s[from].primary_entry(vm));
        if s[from].primary_entry(vm) == 0 {
            lemma_entry(s, vm, from + 1);
            let entry = primary_entry_from(s, vm, from + 1);
            if entry != 0 {
                let i = choose|i: int|
                    from + 1 <= i < s.len() && starts_at(#[trigger] s[i], vm) == entry && forall|j: int|
                        from + 1 <= j < i ==> starts_at(#[trigger] s[j], vm) == 0;
                assert forall|j: int| from <= j < i implies starts_at(#[trigger] s[j], vm) == 0 by {}
                assert(starts_at(s[i], vm) == entry);
            }
        }
    }
}

/// A VM starts where the first of its records says that its first vCPU starts.
pub open spec fn is_entry(entry: u64, s: Seq<BackendVcpu>, vm: u64) -> bool {
    &&& entry == 0 ==> forall|i: int| 0 <= i < s.len() ==> starts_at(#[trigger] s[i], vm) == 0
    &&& entry != 0 ==> exists|i: int|
        0 <= i < s.len() && starts_at(#[trigger] s[i], vm) == entry && forall|j: int|
            0 <= j < i ==> starts_at(#[trigger] s[j], vm) == 0
}

/// The start address of a VM is that of its first vCPU.
pub proof fn vm_starts_where_its_first_vcpu_does(b: &Bridge, vm: u64, entry: u64)
    requires
        b.wf(),
        call_ensures(find_primary_vcpu_entry, (b, vm), entry),
    ensures
        is_entry(entry, b.vcpus@, vm),
{
    lemma_entry(b.vcpus@, vm, 0);
    assert(b@.vcpus == b.vcpus@);
}

/// A device of a configuration, by what the machine makes of it.
pub open spec fn is_device(c: VmConfig, i: int, kind: EmulatedDevice, base: u64, length: u64, irq: usize) -> bool {
    let d = c.emu_devices@[i];
    d.emu_type == kind && d.base_gpa == base && d.length == length && d.irq_id == irq && d.cfg_list@.len() == 0
}

/// A machine is configured for its VM: under its handle, as a Linux guest, with its vCPUs,
/// at least one, and its start address, from memory. It has the serial line on line 4; the
/// I/O APIC's page and the interrupt controllers exactly where the caller created them, and
/// then interrupts are emulated; and the interval timer exactly where that was created.
pub proof fn machine_is_configured_for_its_vm(b: &Bridge, vm: u64, boot: &BootVm, c: VmConfig)
    requires
        b.wf(),
        vm_there(b@, vm),
        call_ensures(build_axvm_config, (b, vm), c) || boot.backend_vm == vm && call_ensures(
            BootVm::config,
            (boot, b),
            c,
        ),
    ensures
        ({
            let record = b.vms@[vm - 1];
            let chips = if record.irqchip_created {
                2int
            } else {
                0
            };
            let pit = if record.pit_created {
                1int
            } else {
                0
            };
            &&& c.id == vm
            &&& c.name@.len() > 6 && c.name@.take(6) == "axkvm-"@ && is_decimal(c.name@.skip(6)) && number_of(c.name@.skip(6))
                == vm
            &&& c.vm_type == 2
            &&& record.vcpu_count > 0 ==> c.cpu_num == record.vcpu_count
            &&& record.vcpu_count == 0 ==> c.cpu_num == 1
            &&& is_entry(c.entry_point, b.vcpus@, vm) && c.kernel_load_addr == c.entry_point
            &&& c.image_location is Some && c.image_location->Some_0@ == "memory"@
            &&& c.interrupt_mode == InterruptMode::Emulated <==> record.irqchip_created
            &&& c.emu_devices@.len() == 1 + chips + pit
            &&& is_device(c, 0, EmulatedDevice::Console, 0, 0, 4)
            &&& record.irqchip_created ==> is_device(c, 1, EmulatedDevice::X86IoApic, 0xfec0_0000, 0x1000, 0) && is_device(
                c,
                2,
                EmulatedDevice::X86Pic,
                0,
                0,
                0,
            )
            &&& record.pit_created ==> is_device(c, 1 + chips, EmulatedDevice::X86Pit, 0, 0, 0)
        }),
{
    let record = b.vms@[vm - 1];
    assert(b@.vm(vm) == record);
    lemma_entry(b.vcpus@, vm, 0);
    assert(b@.vcpus == b.vcpus@);
    lemma_decimal(vm as nat);
    reveal_strlit("axkvm-");
    assert(c.name@.take(6) =~= "axkvm-"@);
    assert(c.name@.skip(6) =~= decimal(vm as nat));
    let list = device_list(record);
    assert(c.emu_devices@[0]@ == list[0]);
    if record.irqchip_created {
        assert(c.emu_devices@[1]@ == list[1]);
        assert(c.emu_devices@[2]@ == list[2]);
        if record.pit_created {
            assert(c.emu_devices@[3]@ == list[3]);
        }
    } else if record.pit_created {
        assert(c.emu_devices@[1]@ == list[1]);
    }
}

} // verus!
