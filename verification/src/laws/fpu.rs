//! Numbers in byte areas, and the FPU save area.
use vstd::prelude::*;

use crate::bytes::{
    copy_bytes, le_bytes, le_load_then_store, le_store_then_load, le_value, lemma_le_bytes_len, mmio_read_value, pow256,
    set_default_fxsave_fields, write_u16_le, write_u32_le, write_u64_le, X86KvmFxsave,
};
use crate::laws::codes::invalid;
use crate::laws::vcpu::{only_that_vcpu, there};
use crate::state::{BackendVcpu, Bridge};
use crate::vcpu::{axvisor_kvm_rs_set_vcpu_fpu, axvisor_kvm_rs_set_vcpu_xsave_legacy, fpu_area, lemma_low_half};

verus! {

/// The number in the bytes of an area from an offset on, least significant first.
pub open spec fn number_at(area: Seq<u8>, offset: int, len: int) -> int {
    le_value(area.subrange(offset, offset + len))
}

/// An area that differs only within a range.
pub open spec fn only_within(was: Seq<u8>, now: Seq<u8>, offset: int, len: int) -> bool {
    &&& now.len() == was.len()
    &&& forall|i: int| 0 <= i < was.len() && !(offset <= i < offset + len) ==> #[trigger] now[i] == was[i]
}

/// A number of few bytes is that of its digits to the base 256, the first the lowest.
pub proof fn number_is_that_of_its_digits(s: Seq<u8>)
    ensures
        s.len() == 1 ==> le_value(s) == s[0],
        s.len() == 2 ==> le_value(s) == s[0] + 256 * s[1],
        s.len() == 4 ==> le_value(s) == s[0] + 256 * s[1] + 65536 * s[2] + 16777216 * s[3],
        s.len() > 0 ==> le_value(s) % 256 == s[0],
        s.len() > 0 ==> le_value(s) / 256 == le_value(s.skip(1)),
        0 <= le_value(s) < pow256(s.len()),
{
    reveal_with_fuel(le_value, 5);
    le_load_then_store(s);
    if s.len() > 0 {
        le_load_then_store(s.skip(1));
    }
}

proof fn lemma_stored(area: Seq<u8>, offset: int, v: int, n: nat)
    requires
        0 <= offset,
        offset + n <= area.len(),
        0 <= v < pow256(n),
    ensures
        number_at(crate::bytes::overwritten(area, offset, le_bytes(v, n)), offset, n as int) == v,
        only_within(area, crate::bytes::overwritten(area, offset, le_bytes(v, n)), offset, n as int),
{
    lemma_le_bytes_len(v, n);
    le_store_then_load(v, n);
    let now = crate::bytes::overwritten(area, offset, le_bytes(v, n));
    assert(now.subrange(offset, offset + n) =~= le_bytes(v, n));
}

/// A number that was stored is read back from where it was stored, and no other byte
/// changed.
pub proof fn stored_number_is_read_back(
    a: &mut [u8],
    b: &mut [u8],
    c: &mut [u8],
    offset: usize,
    x: u16,
    y: u32,
    z: u64,
)
    requires
        offset + 2 <= old(a)@.len(),
        offset + 4 <= old(b)@.len(),
        offset + 8 <= old(c)@.len(),
        call_ensures(write_u16_le, (a, offset, x), ()),
        call_ensures(write_u32_le, (b, offset, y), ()),
        call_ensures(write_u64_le, (c, offset, z), ()),
    ensures
        number_at(final(a)@, offset as int, 2) == x && only_within(old(a)@, final(a)@, offset as int, 2),
        number_at(final(b)@, offset as int, 4) == y && only_within(old(b)@, final(b)@, offset as int, 4),
        number_at(final(c)@, offset as int, 8) == z && only_within(old(c)@, final(c)@, offset as int, 8),
{
    reveal_with_fuel(pow256, 9);
    lemma_stored(old(a)@, offset as int, x as int, 2);
    lemma_stored(old(b)@, offset as int, y as int, 4);
    lemma_stored(old(c)@, offset as int, z as int, 8);
}

/// The number in a buffer of one to eight bytes is read from all of them; without a buffer
/// or with another length there is none.
pub proof fn buffer_is_read_whole(data: Option<&[u8]>, len: u32, r: Result<u64, i32>)
    requires
        data matches Some(bytes) ==> len <= 8 ==> bytes@.len() >= len,
        call_ensures(mmio_read_value, (data, len), r),
    ensures
        data is Some && 1 <= len <= 8 ==> r is Ok && r->Ok_0 == number_at(data->Some_0@, 0, len as int),
        !(data is Some && 1 <= len <= 8) ==> r == Err::<u64, i32>(invalid()),
{
    if let Some(bytes) = data {
        if len <= 8 {
            assert(bytes@.take(len as int) =~= bytes@.subrange(0, len as int));
        }
    }
}

/// Bytes that were copied are found where they were copied to, and no other byte changed;
/// what does not fit is refused without a change.
pub proof fn copied_bytes_are_found(dst: &mut [u8], offset: usize, src: Option<&[u8]>, len: usize, r: Result<(), i32>, i: int)
    requires
        src matches Some(bytes) ==> offset + len <= old(dst)@.len() ==> bytes@.len() >= len,
        call_ensures(copy_bytes, (dst, offset, src, len), r),
        0 <= i < len,
    ensures
        src is Some && offset + len <= old(dst)@.len() ==> {
            &&& r is Ok
            &&& final(dst)@[offset + i] == src->Some_0@[i]
            &&& only_within(old(dst)@, final(dst)@, offset as int, len as int)
        },
        !(src is Some && offset + len <= old(dst)@.len()) ==> r == Err::<(), i32>(invalid()) && final(dst)@ == old(dst)@,
{
}

/// The default fields of a save area: the control word, MXCSR and its mask.
pub proof fn default_fields_are_stored(area: &mut X86KvmFxsave)
    requires
        call_ensures(set_default_fxsave_fields, (area,), ()),
    ensures
        number_at(final(area).bytes@, 0, 2) == 0x37f,
        number_at(final(area).bytes@, 24, 4) == 0x1f80,
        number_at(final(area).bytes@, 28, 4) == 0xffbf,
        forall|i: int|
            2 <= i < 24 || 32 <= i < 512 ==> #[trigger] final(area).bytes@[i] == old(area).bytes@[i],
{
    reveal_with_fuel(pow256, 5);
    let s0 = old(area).bytes@;
    let s1 = crate::bytes::overwritten(s0, 0, le_bytes(0x37f, 2));
    let s2 = crate::bytes::overwritten(s1, 24, le_bytes(0x1f80, 4));
    let s3 = crate::bytes::overwritten(s2, 28, le_bytes(0xffbf, 4));
    lemma_stored(s0, 0, 0x37f, 2);
    lemma_stored(s1, 24, 0x1f80, 4);
    lemma_stored(s2, 28, 0xffbf, 4);
    assert(s3.subrange(0, 2) =~= s1.subrange(0, 2));
    assert(s3.subrange(24, 28) =~= s2.subrange(24, 28));
    assert(final(area).bytes@ == s3);
}

/// A save area holds FPU registers: each number at its place, the register contents from
/// their start on, and the mask of all MXCSR bits that there are.
pub open spec fn holds_fpu(
    area: Seq<u8>,
    fcw: u32,
    fsw: u32,
    ftwx: u32,
    last_opcode: u32,
    last_ip: u64,
    last_dp: u64,
    mxcsr: u32,
    fpr: Seq<u8>,
    xmm: Seq<u8>,
) -> bool {
    &&& number_at(area, 0, 2) == fcw as int % 0x1_0000
    &&& number_at(area, 2, 2) == fsw as int % 0x1_0000
    &&& number_at(area, 4, 1) == ftwx as int % 0x100
    &&& number_at(area, 6, 2) == last_opcode as int % 0x1_0000
    &&& number_at(area, 8, 8) == last_ip
    &&& number_at(area, 16, 8) == last_dp
    &&& number_at(area, 24, 4) == mxcsr
    &&& number_at(area, 28, 4) == 0xffbf
    &&& forall|i: int| 0 <= i < 128 ==> #[trigger] area[32 + i] == fpr[i]
    &&& forall|i: int| 0 <= i < 256 ==> #[trigger] area[160 + i] == xmm[i]
    &&& area[5] == 0
    &&& forall|i: int| 416 <= i < 512 ==> #[trigger] area[i] == 0
}

proof fn lemma_field(area: Seq<u8>, offset: int, v: int, n: nat)
    requires
        0 <= v,
        n == 1 || n == 2 || n == 4 || n == 8,
        n == 4 ==> v < pow256(4),
        n == 8 ==> v < pow256(8),
        0 <= offset,
        offset + n <= area.len(),
        area.subrange(offset, offset + n) == le_bytes(v, n),
    ensures
        n == 1 ==> number_at(area, offset, 1) == v % 0x100,
        n == 2 ==> number_at(area, offset, 2) == v % 0x1_0000,
        n == 4 || n == 8 ==> number_at(area, offset, n as int) == v,
{
    reveal_with_fuel(pow256, 9);
    assert(pow256(1) == 256 && pow256(2) == 65536);
    let field = area.subrange(offset, offset + n);
    if n == 2 {
        lemma_low_half(v);
        le_store_then_load(v % 65536, 2);
        assert(le_value(field) == v % 65536);
    } else if n == 1 {
        lemma_low_half(v);
        le_store_then_load(v % 256, 1);
        lemma_low_half(v % 256);
        assert(le_bytes(v, 1) == le_bytes(v % 256, 1));
        assert(le_value(field) == v % 256);
    } else {
        le_store_then_load(v, n);
        assert(le_value(field) == v);
    }
}

proof fn lemma_fpu_area(
    fcw: u32,
    fsw: u32,
    ftwx: u32,
    last_opcode: u32,
    last_ip: u64,
    last_dp: u64,
    mxcsr: u32,
    fpr: Seq<u8>,
    xmm: Seq<u8>,
)
    requires
        fpr.len() >= 128,
        xmm.len() >= 256,
    ensures
        holds_fpu(
            fpu_area(fcw, fsw, ftwx, last_opcode, last_ip, last_dp, mxcsr, fpr, xmm),
            fcw,
            fsw,
            ftwx,
            last_opcode,
            last_ip,
            last_dp,
            mxcsr,
            fpr,
            xmm,
        ),
{
    let area = fpu_area(fcw, fsw, ftwx, last_opcode, last_ip, last_dp, mxcsr, fpr, xmm);
    reveal_with_fuel(pow256, 9);
    lemma_le_bytes_len(0x37f, 2);
    lemma_le_bytes_len(0x1f80, 4);
    lemma_le_bytes_len(0xffbf, 4);
    lemma_le_bytes_len(fcw as int, 2);
    lemma_le_bytes_len(fsw as int, 2);
    lemma_le_bytes_len(ftwx as int, 1);
    lemma_le_bytes_len(last_opcode as int, 2);
    lemma_le_bytes_len(last_ip as int, 8);
    lemma_le_bytes_len(last_dp as int, 8);
    lemma_le_bytes_len(mxcsr as int, 4);
    assert(area.subrange(0, 2) =~= le_bytes(fcw as int, 2));
    assert(area.subrange(2, 4) =~= le_bytes(fsw as int, 2));
    assert(area.subrange(4, 5) =~= le_bytes(ftwx as int, 1));
    assert(area.subrange(6, 8) =~= le_bytes(last_opcode as int, 2));
    assert(area.subrange(8, 16) =~= le_bytes(last_ip as int, 8));
    assert(area.subrange(16, 24) =~= le_bytes(last_dp as int, 8));
    assert(area.subrange(24, 28) =~= le_bytes(mxcsr as int, 4));
    assert(area.subrange(28, 32) =~= le_bytes(0xffbf, 4));
    lemma_field(area, 0, fcw as int, 2);
    lemma_field(area, 2, fsw as int, 2);
    lemma_field(area, 4, ftwx as int, 1);
    lemma_field(area, 6, last_opcode as int, 2);
    lemma_field(area, 8, last_ip as int, 8);
    lemma_field(area, 16, last_dp as int, 8);
    lemma_field(area, 24, mxcsr as int, 4);
    lemma_field(area, 28, 0xffbf, 4);
    assert(pow256(1) == 256 && pow256(2) == 65536);
    assert forall|i: int| 0 <= i < 128 implies #[trigger] area[32 + i] == fpr[i] by {}
    assert forall|i: int| 0 <= i < 256 implies #[trigger] area[160 + i] == xmm[i] by {}
    assert forall|i: int| 416 <= i < 512 implies #[trigger] area[i] == 0 by {}
    assert(area[5] == 0);
}

/// The FPU registers that were set are what the record's save area holds, which counts
/// from then on. They are refused unless the areas have their sizes, and MXCSR only bits
/// that it has: none above the sixteenth, and not the one that a processor may lack.
pub proof fn set_fpu_is_held(
    b: &mut Bridge,
    handle: u64,
    fcw: u32,
    fsw: u32,
    ftwx: u32,
    last_opcode: u32,
    last_ip: u64,
    last_dp: u64,
    mxcsr: u32,
    fpr: Option<&[u8]>,
    fpr_len: u32,
    xmm: Option<&[u8]>,
    xmm_len: u32,
    r: i32,
)
    requires
        old(b).wf(),
        fpr matches Some(bytes) ==> bytes@.len() >= fpr_len,
        xmm matches Some(bytes) ==> bytes@.len() >= xmm_len,
        call_ensures(
            axvisor_kvm_rs_set_vcpu_fpu,
            (b, handle, fcw, fsw, ftwx, last_opcode, last_ip, last_dp, mxcsr, fpr, fpr_len, xmm, xmm_len),
            r,
        ),
    ensures
        ({
            let good = fpr is Some && fpr_len == 128 && xmm is Some && xmm_len == 256 && mxcsr & 0xffff_0040u32 == 0;
            &&& !(there(old(b)@, handle) && good) ==> r == invalid() && final(b)@ == old(b)@
            &&& there(old(b)@, handle) && good ==> {
                let was = old(b)@.vcpus[handle - 1];
                let now = final(b)@.vcpus[handle - 1];
                &&& r == 0
                &&& only_that_vcpu(old(b)@, final(b)@, handle)
                &&& now.fxsave_valid && now.state_dirty
                &&& holds_fpu(
                    now.fxsave.bytes@,
                    fcw,
                    fsw,
                    ftwx,
                    last_opcode,
                    last_ip,
                    last_dp,
                    mxcsr,
                    fpr->Some_0@,
                    xmm->Some_0@,
                )
                &&& now == (BackendVcpu {
                    fxsave: now.fxsave,
                    fxsave_valid: now.fxsave_valid,
                    state_dirty: now.state_dirty,
                    ..was
                })
            }
        }),
{
    assert((mxcsr & 0xffff_0040u32 == 0) == (mxcsr < 0x1_0000 && (mxcsr / 0x40) % 2 == 0)) by (bit_vector);
    if fpr is Some && fpr_len == 128 && xmm is Some && xmm_len == 256 {
        lemma_fpu_area(fcw, fsw, ftwx, last_opcode, last_ip, last_dp, mxcsr, fpr->Some_0@, xmm->Some_0@);
    }
}

/// An XSAVE region is taken over as it is, byte by byte; only where its MXCSR mask is zero
/// it gets the mask of all bits that there are.
pub proof fn xsave_region_is_taken_over(b: &mut Bridge, handle: u64, region: Option<&[u8]>, words: u32, r: i32, i: int)
    requires
        old(b).wf(),
        region matches Some(bytes) ==> words >= 128 ==> bytes@.len() >= 512,
        call_ensures(axvisor_kvm_rs_set_vcpu_xsave_legacy, (b, handle, region, words), r),
        0 <= i < 512,
    ensures
        ({
            let good = region is Some && words >= 128;
            &&& !(there(old(b)@, handle) && good) ==> r == invalid() && final(b)@ == old(b)@
            &&& there(old(b)@, handle) && good ==> {
                let was = old(b)@.vcpus[handle - 1];
                let now = final(b)@.vcpus[handle - 1];
                let bytes = region->Some_0@;
                &&& r == 0
                &&& only_that_vcpu(old(b)@, final(b)@, handle)
                &&& now.fxsave_valid && now.state_dirty
                &&& !(28 <= i < 32) ==> now.fxsave.bytes@[i] == bytes[i]
                &&& number_at(bytes, 28, 4) == 0 ==> number_at(now.fxsave.bytes@, 28, 4) == 0xffbf
                &&& number_at(bytes, 28, 4) != 0 ==> number_at(now.fxsave.bytes@, 28, 4) == number_at(bytes, 28, 4)
                &&& now == (BackendVcpu {
                    fxsave: now.fxsave,
                    fxsave_valid: now.fxsave_valid,
                    state_dirty: now.state_dirty,
                    ..was
                })
            }
        }),
{
    if region is Some && words >= 128 && there(old(b)@, handle) {
        let bytes = region->Some_0@;
        let area = final(b)@.vcpus[handle - 1].fxsave.bytes@;
        let s = bytes.take(512);
        let mask = s.subrange(28, 32);
        reveal_with_fuel(pow256, 5);
        lemma_le_bytes_len(0xffbf, 4);
        assert(bytes.subrange(28, 32) =~= mask);
        number_is_that_of_its_digits(mask);
        if mask == seq![0u8, 0u8, 0u8, 0u8] {
            lemma_stored(s, 28, 0xffbf, 4);
        } else {
            assert(!(mask[0] == 0 && mask[1] == 0 && mask[2] == 0 && mask[3] == 0)) by {
                if mask[0] == 0 && mask[1] == 0 && mask[2] == 0 && mask[3] == 0 {
                    assert(mask =~= seq![0u8, 0u8, 0u8, 0u8]);
                }
            }
            assert(area =~= s);
        }
    }
}

} // verus!
