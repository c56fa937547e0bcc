//! Direct-mode loads and the per-field accessor plan.
//!
//! A direct accessor copies the field's bytes out of the addressed memory;
//! here the memory a view addresses is modeled as the byte sequence starting
//! at the view's base address, so a field's bytes are the slice at its
//! offset. No alignment precondition is imposed: any offset is readable as
//! long as the buffer covers it. Multi-byte values are assembled
//! little-endian, the byte order of the targets whose unaligned loads these
//! accessors model.

use vstd::prelude::*;

use crate::schema::AccessMode;
use crate::schema::FieldDescriptor;

verus! {

/// The `n` bytes a direct accessor at `offset` returns: exactly
/// `mem[offset .. offset + n]`.
pub open spec fn spec_field_bytes(mem: Seq<u8>, offset: int, n: int) -> Seq<u8> {
    mem.subrange(offset, offset + n)
}

/// The value of a byte sequence read little-endian: the first byte is the
/// least significant.
pub open spec fn le_bytes_value(s: Seq<u8>) -> int
    decreases s.len(),
{
    if s.len() == 0 {
        0
    } else {
        s[0] + 256 * le_bytes_value(s.subrange(1, s.len() as int))
    }
}

/// Direct-mode load of a whole field: copies exactly the `n` bytes at
/// `[offset, offset + n)`, whether or not `offset` is aligned to `n`.
///
/// The caller guarantees the addressed memory is live and long enough; the
/// bound below is that guarantee for the modeled buffer.
pub fn direct_load_bytes(mem: &[u8], offset: usize, n: usize) -> (r: Vec<u8>)
    requires
        offset + n <= mem.len(),
    ensures
        r@ == spec_field_bytes(mem@, offset as int, n as int),
{
    let mut out: Vec<u8> = Vec::new();
    let mut i: usize = 0;
    while i < n
        invariant
            offset + n <= mem.len(),
            i <= n,
            out@ == mem@.subrange(offset as int, offset + i),
        decreases n - i,
    {
        out.push(mem[offset + i]);
        proof {
            assert(out@ =~= mem@.subrange(offset as int, offset + i + 1));
        }
        i += 1;
    }
    proof {
        assert(out@ =~= spec_field_bytes(mem@, offset as int, n as int));
    }
    out
}

/// Direct-mode load of a field's bytes, driven by its descriptor.
pub fn direct_field_bytes(mem: &[u8], d: &FieldDescriptor, n: usize) -> (r: Vec<u8>)
    requires
        d.mode is Direct,
        d.offset + n <= mem.len(),
    ensures
        r@ == spec_field_bytes(mem@, d.offset as int, n as int),
{
    direct_load_bytes(mem, d.offset, n)
}

/// Direct-mode load of a one-byte field.
pub fn load_u8(mem: &[u8], offset: usize) -> (r: u8)
    requires
        offset < mem.len(),
    ensures
        r == mem@[offset as int],
        r == le_bytes_value(spec_field_bytes(mem@, offset as int, 1)),
{
    proof {
        let s = spec_field_bytes(mem@, offset as int, 1);
        assert(s.subrange(1, 1) =~= Seq::<u8>::empty());
        assert(le_bytes_value(Seq::<u8>::empty()) == 0);
        assert(le_bytes_value(s) == s[0]);
    }
    mem[offset]
}

/// Direct-mode unaligned load of a two-byte field, little-endian.
pub fn load_u16_le(mem: &[u8], offset: usize) -> (r: u16)
    requires
        offset + 2 <= mem.len(),
    ensures
        r == le_bytes_value(spec_field_bytes(mem@, offset as int, 2)),
{
    let b0 = mem[offset] as u16;
    let b1 = mem[offset + 1] as u16;
    proof {
        let s = spec_field_bytes(mem@, offset as int, 2);
        let s1 = s.subrange(1, 2);
        assert(s1.subrange(1, 1) =~= Seq::<u8>::empty());
        assert(le_bytes_value(Seq::<u8>::empty()) == 0);
        assert(le_bytes_value(s1) == s1[0]);
        assert(le_bytes_value(s) == s[0] + 256 * le_bytes_value(s1));
    }
    b0 + 256 * b1
}

/// Direct-mode unaligned load of a four-byte field, little-endian.
pub fn load_u32_le(mem: &[u8], offset: usize) -> (r: u32)
    requires
        offset + 4 <= mem.len(),
    ensures
        r == le_bytes_value(spec_field_bytes(mem@, offset as int, 4)),
{
    let b0 = mem[offset] as u32;
    let b1 = mem[offset + 1] as u32;
    let b2 = mem[offset + 2] as u32;
    let b3 = mem[offset + 3] as u32;
    proof {
        let s = spec_field_bytes(mem@, offset as int, 4);
        let s1 = s.subrange(1, 4);
        let s2 = s1.subrange(1, 3);
        let s3 = s2.subrange(1, 2);
        assert(s3.subrange(1, 1) =~= Seq::<u8>::empty());
        assert(le_bytes_value(Seq::<u8>::empty()) == 0);
        assert(le_bytes_value(s3) == s3[0]);
        assert(le_bytes_value(s2) == s2[0] + 256 * le_bytes_value(s3));
        assert(le_bytes_value(s1) == s1[0] + 256 * le_bytes_value(s2));
        assert(le_bytes_value(s) == s[0] + 256 * le_bytes_value(s1));
        assert(s1[0] == s[1] && s2[0] == s[2] && s3[0] == s[3]);
    }
    b0 + 256 * (b1 + 256 * (b2 + 256 * b3))
}

/// Direct-mode unaligned load of an eight-byte field, little-endian.
pub fn load_u64_le(mem: &[u8], offset: usize) -> (r: u64)
    requires
        offset + 8 <= mem.len(),
    ensures
        r == le_bytes_value(spec_field_bytes(mem@, offset as int, 8)),
{
    let lo = load_u32_le(mem, offset) as u64;
    let hi = load_u32_le(mem, offset + 4) as u64;
    proof {
        let s = spec_field_bytes(mem@, offset as int, 8);
        lemma_le_bytes_split(s, 4);
        assert(s.subrange(0, 4) =~= spec_field_bytes(mem@, offset as int, 4));
        assert(s.subrange(4, 8) =~= spec_field_bytes(mem@, offset + 4, 4));
        assert(pow256(0) == 1);
        assert(pow256(1) == 256);
        assert(pow256(2) == 0x1_0000);
        assert(pow256(3) == 0x100_0000);
        assert(pow256(4) == 0x1_0000_0000);
        assert(le_bytes_value(s) == le_bytes_value(s.subrange(0, 4)) + 0x1_0000_0000
            * le_bytes_value(s.subrange(4, 8)));
    }
    lo + 0x1_0000_0000 * hi
}

/// Splitting a little-endian byte sequence at `k` splits its value: the low
/// `k` bytes plus `256^k` times the rest.
proof fn lemma_le_bytes_split(s: Seq<u8>, k: int)
    requires
        0 <= k <= s.len(),
    ensures
        le_bytes_value(s) == le_bytes_value(s.subrange(0, k)) + pow256(k as nat) * le_bytes_value(
            s.subrange(k, s.len() as int),
        ),
    decreases k,
{
    if k == 0 {
        assert(s.subrange(0, 0) =~= Seq::<u8>::empty());
        assert(le_bytes_value(Seq::<u8>::empty()) == 0);
        assert(s.subrange(0, s.len() as int) =~= s);
    } else {
        let tail = s.subrange(1, s.len() as int);
        lemma_le_bytes_split(tail, k - 1);
        assert(tail.subrange(0, k - 1) =~= s.subrange(0, k).subrange(1, k));
        assert(tail.subrange(k - 1, tail.len() as int) =~= s.subrange(k, s.len() as int));
        let low = s.subrange(0, k);
        assert(le_bytes_value(low) == low[0] + 256 * le_bytes_value(low.subrange(1, k)));
        assert(le_bytes_value(s) == s[0] + 256 * le_bytes_value(tail));
        assert(le_bytes_value(tail) == le_bytes_value(tail.subrange(0, k - 1)) + pow256(
            (k - 1) as nat,
        ) * le_bytes_value(tail.subrange(k - 1, tail.len() as int)));
        assert(pow256(k as nat) == 256 * pow256((k - 1) as nat));
        assert(256 * (pow256((k - 1) as nat) * le_bytes_value(s.subrange(k, s.len() as int)))
            == pow256(k as nat) * le_bytes_value(s.subrange(k, s.len() as int)))
            by (nonlinear_arith)
            requires pow256(k as nat) == 256 * pow256((k - 1) as nat);
        assert(low[0] == s[0]);
        assert(le_bytes_value(tail.subrange(0, k - 1)) == le_bytes_value(low.subrange(1, k)));
        assert(le_bytes_value(tail.subrange(k - 1, tail.len() as int)) == le_bytes_value(
            s.subrange(k, s.len() as int),
        ));
        assert(le_bytes_value(s) == s[0] + 256 * le_bytes_value(low.subrange(1, k)) + 256 * (
        pow256((k - 1) as nat) * le_bytes_value(s.subrange(k, s.len() as int))));
    }
}

/// `256^k`.
spec fn pow256(k: nat) -> int
    decreases k,
{
    if k == 0 {
        1
    } else {
        256 * pow256((k - 1) as nat)
    }
}

/// What the semantics engine yields per field to a renderer: the resolved
/// mode, the offset, and whether the base (non-indexed) accessor is public.
#[derive(Clone, Copy, Debug, PartialEq, Eq, Structural)]
pub struct AccessorPlan {
    pub offset: usize,
    pub mode: AccessMode,
    /// Direct and reinterpret accessors are public; an array field's base
    /// accessor is not — elements are reached only through bounds-checked
    /// indexing.
    pub base_public: bool,
}

/// Derives the accessor plan of one validated field.
pub fn accessor_plan(d: &FieldDescriptor) -> (p: AccessorPlan)
    ensures
        p.offset == d.offset,
        p.mode == d.mode,
        p.base_public == !(d.mode is Array),
{
    let is_array = match d.mode {
        AccessMode::Array { .. } => true,
        _ => false,
    };
    AccessorPlan { offset: d.offset, mode: d.mode, base_public: !is_array }
}

} // verus!
