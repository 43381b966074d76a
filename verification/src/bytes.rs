//! Little-endian stores into a byte area, and the legacy FPU save area.
use vstd::prelude::*;

use crate::errno::EINVAL;

verus! {

/// Size of the legacy FPU save area.
pub const FXSAVE_SIZE: usize = 512;

pub const FXSAVE_FCW_OFFSET: usize = 0;

pub const FXSAVE_FSW_OFFSET: usize = 2;

pub const FXSAVE_FTW_OFFSET: usize = 4;

pub const FXSAVE_FOP_OFFSET: usize = 6;

pub const FXSAVE_RIP_OFFSET: usize = 8;

pub const FXSAVE_RDP_OFFSET: usize = 16;

pub const FXSAVE_MXCSR_OFFSET: usize = 24;

pub const FXSAVE_MXCSR_MASK_OFFSET: usize = 28;

pub const FXSAVE_ST_OFFSET: usize = 32;

pub const FXSAVE_XMM_OFFSET: usize = 160;

pub const FXSAVE_ST_SIZE: usize = 128;

pub const FXSAVE_XMM_SIZE: usize = 256;

/// The MXCSR bits that may be set.
pub const X86_MXCSR_VALID_MASK: u32 = 0x0000_ffbf;

/// The legacy FPU save area.
#[derive(Clone, Copy)]
pub struct X86KvmFxsave {
    pub bytes: [u8; FXSAVE_SIZE],
}

impl X86KvmFxsave {
    /// The area with every byte zero.
    pub open spec fn spec_zeroed() -> X86KvmFxsave {
        X86KvmFxsave { bytes: [0u8; FXSAVE_SIZE] }
    }

    /// The area with every byte zero.
    pub fn zeroed() -> (r: X86KvmFxsave)
        ensures
            r == Self::spec_zeroed(),
            r.bytes@ == Seq::new(FXSAVE_SIZE as nat, |i: int| 0u8),
    {
        let r = X86KvmFxsave { bytes: [0u8; FXSAVE_SIZE] };
        assert(r.bytes@ =~= Seq::new(FXSAVE_SIZE as nat, |i: int| 0u8));
        r
    }
}

/// The number that a byte sequence holds, least significant byte first.
pub open spec fn le_value(s: Seq<u8>) -> int
    decreases s.len(),
{
    if s.len() == 0 {
        0
    } else {
        s[0] as int + 256 * le_value(s.skip(1))
    }
}

/// The low `n` bytes of a number, least significant first.
pub open spec fn le_bytes(v: int, n: nat) -> Seq<u8>
    decreases n,
{
    if n == 0 {
        seq![]
    } else {
        seq![(v % 256) as u8] + le_bytes(v / 256, (n - 1) as nat)
    }
}

/// `s` with `b` written over it from `offset` on.
pub open spec fn overwritten(s: Seq<u8>, offset: int, b: Seq<u8>) -> Seq<u8> {
    Seq::new(s.len(), |i: int| if offset <= i < offset + b.len() { b[i - offset] } else { s[i] })
}

/// 256 to the power `n`.
pub open spec fn pow256(n: nat) -> int
    decreases n,
{
    if n == 0 {
        1
    } else {
        256 * pow256((n - 1) as nat)
    }
}

/// A number that fits in `n` bytes is read back from the bytes it was stored as.
pub proof fn le_store_then_load(v: int, n: nat)
    requires
        0 <= v < pow256(n),
    ensures
        le_bytes(v, n).len() == n,
        le_value(le_bytes(v, n)) == v,
    decreases n,
{
    if n > 0 {
        let rest = le_bytes(v / 256, (n - 1) as nat);
        le_store_then_load(v / 256, (n - 1) as nat);
        let s = le_bytes(v, n);
        assert(s.skip(1) =~= rest);
        assert(s[0] as int == v % 256);
    }
}

/// Bytes are stored back as they were read.
pub proof fn le_load_then_store(s: Seq<u8>)
    ensures
        0 <= le_value(s) < pow256(s.len()),
        le_bytes(le_value(s), s.len()) == s,
    decreases s.len(),
{
    if s.len() > 0 {
        le_load_then_store(s.skip(1));
        let v = le_value(s);
        assert(v % 256 == s[0] as int);
        assert(v / 256 == le_value(s.skip(1)));
        assert(seq![s[0]] + s.skip(1) =~= s);
    }
}

/// What was written over an area is found there, and nothing else moved.
pub proof fn overwrite_then_read(s: Seq<u8>, offset: int, b: Seq<u8>)
    requires
        0 <= offset,
        offset + b.len() <= s.len(),
    ensures
        overwritten(s, offset, b).len() == s.len(),
        overwritten(s, offset, b).subrange(offset, offset + b.len()) == b,
        forall|i: int| 0 <= i < s.len() && !(offset <= i < offset + b.len()) ==> overwritten(s, offset, b)[i] == s[i],
{
    assert(overwritten(s, offset, b).subrange(offset, offset + b.len()) =~= b);
}

proof fn lemma_le_bytes_2(v: int)
    ensures
        le_bytes(v, 2) == seq![(v % 256) as u8, (v / 256 % 256) as u8],
{
    reveal_with_fuel(le_bytes, 3);
    assert(le_bytes(v, 2) =~= seq![(v % 256) as u8, (v / 256 % 256) as u8]);
}

proof fn lemma_le_bytes_4(v: int)
    ensures
        le_bytes(v, 4) == seq![
            (v % 256) as u8,
            (v / 256 % 256) as u8,
            (v / 65536 % 256) as u8,
            (v / 16777216 % 256) as u8,
        ],
{
    reveal_with_fuel(le_bytes, 5);
    assert(le_bytes(v, 4) =~= seq![
        (v % 256) as u8,
        (v / 256 % 256) as u8,
        (v / 65536 % 256) as u8,
        (v / 16777216 % 256) as u8,
    ]);
}

/// Stores a 16-bit number at `offset`.
pub fn write_u16_le(bytes: &mut [u8], offset: usize, value: u16)
    requires
        offset + 2 <= old(bytes)@.len(),
    ensures
        final(bytes)@ == overwritten(old(bytes)@, offset as int, le_bytes(value as int, 2)),
{
    proof {
        lemma_le_bytes_2(value as int);
    }
    bytes[offset] = (value % 256) as u8;
    bytes[offset + 1] = (value / 256) as u8;
}

/// Stores a 32-bit number at `offset`.
pub fn write_u32_le(bytes: &mut [u8], offset: usize, value: u32)
    requires
        offset + 4 <= old(bytes)@.len(),
    ensures
        final(bytes)@ == overwritten(old(bytes)@, offset as int, le_bytes(value as int, 4)),
{
    proof {
        lemma_le_bytes_4(value as int);
    }
    bytes[offset] = (value % 256) as u8;
    bytes[offset + 1] = (value / 256 % 256) as u8;
    bytes[offset + 2] = (value / 65536 % 256) as u8;
    bytes[offset + 3] = (value / 16777216) as u8;
}

/// Stores a 64-bit number at `offset`.
pub fn write_u64_le(bytes: &mut [u8], offset: usize, value: u64)
    requires
        offset + 8 <= old(bytes)@.len(),
    ensures
        final(bytes)@ == overwritten(old(bytes)@, offset as int, le_bytes(value as int, 8)),
{
    let total: usize = bytes.len();
    let mut rest: u64 = value;
    let mut i: usize = 0;
    proof {
        lemma_le_bytes_len(value as int, 8);
        assert(le_bytes(value as int, 8).skip(0) =~= le_bytes(value as int, 8));
    }
    while i < 8
        invariant
            0 <= i <= 8,
            offset + 8 <= total,
            bytes@.len() == old(bytes)@.len() == total,
            le_bytes(value as int, 8).len() == 8,
            le_bytes(value as int, 8).skip(i as int) == le_bytes(rest as int, (8 - i) as nat),
            forall|j: int|
                0 <= j < bytes@.len() ==> bytes@[j] == (if offset <= j < offset + i {
                    le_bytes(value as int, 8)[j - offset]
                } else {
                    old(bytes)@[j]
                }),
        decreases 8 - i,
    {
        let ghost all = le_bytes(value as int, 8);
        proof {
            assert(all.skip(i as int)[0] == all[i as int]);
            assert(all.skip(i as int).skip(1) =~= all.skip(i + 1));
            assert(le_bytes(rest as int, (8 - i) as nat).skip(1) =~= le_bytes(rest as int / 256, (7 - i) as nat));
        }
        bytes[offset + i] = (rest % 256) as u8;
        rest = rest / 256;
        i += 1;
    }
}

pub(crate) proof fn lemma_le_bytes_len(v: int, n: nat)
    ensures
        le_bytes(v, n).len() == n,
    decreases n,
{
    if n > 0 {
        lemma_le_bytes_len(v / 256, (n - 1) as nat);
    }
}

/// Reads the number in a completion buffer of one to eight bytes.
pub fn mmio_read_value(data: Option<&[u8]>, len: u32) -> (r: Result<u64, i32>)
    requires
        data matches Some(bytes) ==> len <= 8 ==> bytes@.len() >= len,
    ensures
        data is None || len == 0 || len > 8 ==> r == Err::<u64, i32>((-EINVAL) as i32),
        data matches Some(bytes) ==> 1 <= len <= 8 ==> r is Ok && r->Ok_0 == le_value(bytes@.take(len as int)),
{
    let bytes: &[u8] = match data {
        None => {
            return Err(-EINVAL);
        },
        Some(bytes) => bytes,
    };
    if len == 0 || len > 8 {
        return Err(-EINVAL);
    }
    let mut value: u64 = 0;
    let mut i: usize = len as usize;
    proof {
        assert(bytes@.take(len as int).skip(len as int) =~= seq![]);
        assert(pow256(0) == 1);
    }
    while i > 0
        invariant
            0 <= i <= len <= 8,
            bytes@.len() >= len,
            value == le_value(bytes@.take(len as int).skip(i as int)),
        decreases i,
    {
        let ghost s = bytes@.take(len as int);
        proof {
            let t = s.skip(i - 1);
            assert(t[0] == bytes@[i - 1]);
            assert(t.skip(1) =~= s.skip(i as int));
            le_load_then_store(t);
            reveal_with_fuel(pow256, 9);
            assert(le_value(t) < pow256(8)) by {
                lemma_pow256_monotonic(t.len(), 8);
            }
        }
        i -= 1;
        value = value * 256 + bytes[i] as u64;
    }
    proof {
        assert(bytes@.take(len as int).skip(0) =~= bytes@.take(len as int));
    }
    Ok(value)
}

proof fn lemma_pow256_monotonic(a: nat, b: nat)
    requires
        a <= b,
    ensures
        0 < pow256(a) <= pow256(b),
    decreases b,
{
    if a < b {
        lemma_pow256_monotonic(a, (b - 1) as nat);
    } else if a > 0 {
        lemma_pow256_monotonic((a - 1) as nat, (a - 1) as nat);
    }
}

/// The bytes of a save area with the default control word, MXCSR and MXCSR mask
/// stored in it.
pub open spec fn with_default_fxsave_fields(s: Seq<u8>) -> Seq<u8> {
    overwritten(
        overwritten(
            overwritten(s, FXSAVE_FCW_OFFSET as int, le_bytes(0x37f, 2)),
            FXSAVE_MXCSR_OFFSET as int,
            le_bytes(0x1f80, 4),
        ),
        FXSAVE_MXCSR_MASK_OFFSET as int,
        le_bytes(X86_MXCSR_VALID_MASK as int, 4),
    )
}

/// Stores the default control word, MXCSR and MXCSR mask.
pub fn set_default_fxsave_fields(fxsave: &mut X86KvmFxsave)
    ensures
        final(fxsave).bytes@ == with_default_fxsave_fields(old(fxsave).bytes@),
{
    write_u16_le(&mut fxsave.bytes, FXSAVE_FCW_OFFSET, 0x37f);
    write_u32_le(&mut fxsave.bytes, FXSAVE_MXCSR_OFFSET, 0x1f80);
    write_u32_le(&mut fxsave.bytes, FXSAVE_MXCSR_MASK_OFFSET, X86_MXCSR_VALID_MASK);
}

/// Copies the first `len` bytes of `src` into `dst` at `dst_offset`; refused
/// without a source, or where they do not fit.
pub fn copy_bytes(dst: &mut [u8], dst_offset: usize, src: Option<&[u8]>, len: usize) -> (r: Result<(), i32>)
    requires
        src matches Some(bytes) ==> dst_offset + len <= old(dst)@.len() ==> bytes@.len() >= len,
    ensures
        r is Ok <==> src is Some && dst_offset + len <= old(dst)@.len(),
        r matches Err(e) ==> e == -EINVAL && final(dst)@ == old(dst)@,
        src matches Some(bytes) ==> r is Ok ==> final(dst)@ == overwritten(
            old(dst)@,
            dst_offset as int,
            bytes@.take(len as int),
        ),
{
    let total: usize = dst.len();
    let bytes: &[u8] = match src {
        None => {
            return Err(-EINVAL);
        },
        Some(bytes) => bytes,
    };
    let end: usize = match dst_offset.checked_add(len) {
        None => {
            return Err(-EINVAL);
        },
        Some(end) => end,
    };
    if end > total {
        return Err(-EINVAL);
    }
    let mut i: usize = 0;
    while i < len
        invariant
            0 <= i <= len,
            dst_offset + len <= total,
            dst@.len() == old(dst)@.len() == total,
            bytes@.len() >= len,
            forall|j: int|
                0 <= j < dst@.len() ==> dst@[j] == (if dst_offset <= j < dst_offset + i {
                    bytes@[j - dst_offset]
                } else {
                    old(dst)@[j]
                }),
        decreases len - i,
    {
        dst[dst_offset + i] = bytes[i];
        i += 1;
    }
    assert(dst@ =~= overwritten(old(dst)@, dst_offset as int, bytes@.take(len as int)));
    Ok(())
}

} // verus!
