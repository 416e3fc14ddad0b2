//! Typed access to raw target memory: fixed-layout values are encoded to and
//! decoded from little-endian bytes, the byte length of a request is computed
//! with an explicit overflow check, and the round-trip law — reading back
//! what was written yields the written values — is proved against a byte
//! model of target memory.

use vstd::bytes::*;
use vstd::prelude::*;
use vstd::slice::slice_subrange;

use crate::error::{Action, CubeProgrammerError};

verus! {

/// The little-endian encoding of a sequence of 16-bit values.
pub open spec fn spec_encode_u16s(vs: Seq<u16>) -> Seq<u8>
    decreases vs.len(),
{
    if vs.len() == 0 {
        Seq::empty()
    } else {
        spec_u16_to_le_bytes(vs.first()) + spec_encode_u16s(vs.drop_first())
    }
}

/// The 16-bit values a byte sequence holds, two bytes at a time.
pub open spec fn spec_decode_u16s(bs: Seq<u8>) -> Seq<u16>
    decreases bs.len(),
{
    if bs.len() < 2 {
        Seq::empty()
    } else {
        seq![spec_u16_from_le_bytes(bs.take(2))] + spec_decode_u16s(bs.skip(2))
    }
}

/// The little-endian encoding of a sequence of 32-bit values.
pub open spec fn spec_encode_u32s(vs: Seq<u32>) -> Seq<u8>
    decreases vs.len(),
{
    if vs.len() == 0 {
        Seq::empty()
    } else {
        spec_u32_to_le_bytes(vs.first()) + spec_encode_u32s(vs.drop_first())
    }
}

/// The 32-bit values a byte sequence holds, four bytes at a time.
pub open spec fn spec_decode_u32s(bs: Seq<u8>) -> Seq<u32>
    decreases bs.len(),
{
    if bs.len() < 4 {
        Seq::empty()
    } else {
        seq![spec_u32_from_le_bytes(bs.take(4))] + spec_decode_u32s(bs.skip(4))
    }
}

/// The little-endian encoding of a sequence of 64-bit values.
pub open spec fn spec_encode_u64s(vs: Seq<u64>) -> Seq<u8>
    decreases vs.len(),
{
    if vs.len() == 0 {
        Seq::empty()
    } else {
        spec_u64_to_le_bytes(vs.first()) + spec_encode_u64s(vs.drop_first())
    }
}

/// The 64-bit values a byte sequence holds, eight bytes at a time.
pub open spec fn spec_decode_u64s(bs: Seq<u8>) -> Seq<u64>
    decreases bs.len(),
{
    if bs.len() < 8 {
        Seq::empty()
    } else {
        seq![spec_u64_from_le_bytes(bs.take(8))] + spec_decode_u64s(bs.skip(8))
    }
}

/// Appending a value extends the encoding at the back.
proof fn lemma_encode_u16s_push(vs: Seq<u16>, x: u16)
    ensures
        spec_encode_u16s(vs.push(x)) == spec_encode_u16s(vs) + spec_u16_to_le_bytes(x),
    decreases vs.len(),
{
    lemma_auto_spec_u16_to_from_le_bytes();
    if vs.len() == 0 {
        assert(vs.push(x).drop_first() =~= Seq::<u16>::empty());
        assert(vs.push(x).first() == x);
        assert(spec_encode_u16s(vs.push(x)) == spec_u16_to_le_bytes(x) + spec_encode_u16s(
            Seq::<u16>::empty(),
        ));
        assert(spec_encode_u16s(Seq::<u16>::empty()) == Seq::<u8>::empty());
        assert(spec_encode_u16s(vs.push(x)) =~= spec_encode_u16s(vs) + spec_u16_to_le_bytes(x));
    } else {
        lemma_encode_u16s_push(vs.drop_first(), x);
        assert(vs.push(x).drop_first() =~= vs.drop_first().push(x));
        assert(vs.push(x).first() == vs.first());
        assert(spec_encode_u16s(vs.push(x)) == spec_u16_to_le_bytes(vs.first())
            + spec_encode_u16s(vs.drop_first().push(x)));
        assert(spec_encode_u16s(vs.push(x)) =~= spec_encode_u16s(vs) + spec_u16_to_le_bytes(x));
    }
}

/// Appending a value extends the encoding at the back.
proof fn lemma_encode_u32s_push(vs: Seq<u32>, x: u32)
    ensures
        spec_encode_u32s(vs.push(x)) == spec_encode_u32s(vs) + spec_u32_to_le_bytes(x),
    decreases vs.len(),
{
    lemma_auto_spec_u32_to_from_le_bytes();
    if vs.len() == 0 {
        assert(vs.push(x).drop_first() =~= Seq::<u32>::empty());
        assert(vs.push(x).first() == x);
        assert(spec_encode_u32s(vs.push(x)) == spec_u32_to_le_bytes(x) + spec_encode_u32s(
            Seq::<u32>::empty(),
        ));
        assert(spec_encode_u32s(Seq::<u32>::empty()) == Seq::<u8>::empty());
        assert(spec_encode_u32s(vs.push(x)) =~= spec_encode_u32s(vs) + spec_u32_to_le_bytes(x));
    } else {
        lemma_encode_u32s_push(vs.drop_first(), x);
        assert(vs.push(x).drop_first() =~= vs.drop_first().push(x));
        assert(vs.push(x).first() == vs.first());
        assert(spec_encode_u32s(vs.push(x)) == spec_u32_to_le_bytes(vs.first())
            + spec_encode_u32s(vs.drop_first().push(x)));
        assert(spec_encode_u32s(vs.push(x)) =~= spec_encode_u32s(vs) + spec_u32_to_le_bytes(x));
    }
}

/// Appending a value extends the encoding at the back.
proof fn lemma_encode_u64s_push(vs: Seq<u64>, x: u64)
    ensures
        spec_encode_u64s(vs.push(x)) == spec_encode_u64s(vs) + spec_u64_to_le_bytes(x),
    decreases vs.len(),
{
    lemma_auto_spec_u64_to_from_le_bytes();
    if vs.len() == 0 {
        assert(vs.push(x).drop_first() =~= Seq::<u64>::empty());
        assert(vs.push(x).first() == x);
        assert(spec_encode_u64s(vs.push(x)) == spec_u64_to_le_bytes(x) + spec_encode_u64s(
            Seq::<u64>::empty(),
        ));
        assert(spec_encode_u64s(Seq::<u64>::empty()) == Seq::<u8>::empty());
        assert(spec_encode_u64s(vs.push(x)) =~= spec_encode_u64s(vs) + spec_u64_to_le_bytes(x));
    } else {
        lemma_encode_u64s_push(vs.drop_first(), x);
        assert(vs.push(x).drop_first() =~= vs.drop_first().push(x));
        assert(vs.push(x).first() == vs.first());
        assert(spec_encode_u64s(vs.push(x)) == spec_u64_to_le_bytes(vs.first())
            + spec_encode_u64s(vs.drop_first().push(x)));
        assert(spec_encode_u64s(vs.push(x)) =~= spec_encode_u64s(vs) + spec_u64_to_le_bytes(x));
    }
}

/// The encoding of `n` 16-bit values spans `2 * n` bytes, and decoding gives
/// the values back.
pub proof fn lemma_decode_encode_u16s(vs: Seq<u16>)
    ensures
        spec_encode_u16s(vs).len() == 2 * vs.len(),
        spec_decode_u16s(spec_encode_u16s(vs)) == vs,
    decreases vs.len(),
{
    lemma_auto_spec_u16_to_from_le_bytes();
    if vs.len() > 0 {
        lemma_decode_encode_u16s(vs.drop_first());
        let e = spec_encode_u16s(vs);
        assert(e.take(2) =~= spec_u16_to_le_bytes(vs.first()));
        assert(e.skip(2) =~= spec_encode_u16s(vs.drop_first()));
        assert(seq![vs.first()] + vs.drop_first() =~= vs);
    }
}

/// The encoding of `n` 32-bit values spans `4 * n` bytes, and decoding gives
/// the values back.
pub proof fn lemma_decode_encode_u32s(vs: Seq<u32>)
    ensures
        spec_encode_u32s(vs).len() == 4 * vs.len(),
        spec_decode_u32s(spec_encode_u32s(vs)) == vs,
    decreases vs.len(),
{
    lemma_auto_spec_u32_to_from_le_bytes();
    if vs.len() > 0 {
        lemma_decode_encode_u32s(vs.drop_first());
        let e = spec_encode_u32s(vs);
        assert(e.take(4) =~= spec_u32_to_le_bytes(vs.first()));
        assert(e.skip(4) =~= spec_encode_u32s(vs.drop_first()));
        assert(seq![vs.first()] + vs.drop_first() =~= vs);
    }
}

/// The encoding of `n` 64-bit values spans `8 * n` bytes, and decoding gives
/// the values back.
pub proof fn lemma_decode_encode_u64s(vs: Seq<u64>)
    ensures
        spec_encode_u64s(vs).len() == 8 * vs.len(),
        spec_decode_u64s(spec_encode_u64s(vs)) == vs,
    decreases vs.len(),
{
    lemma_auto_spec_u64_to_from_le_bytes();
    if vs.len() > 0 {
        lemma_decode_encode_u64s(vs.drop_first());
        let e = spec_encode_u64s(vs);
        assert(e.take(8) =~= spec_u64_to_le_bytes(vs.first()));
        assert(e.skip(8) =~= spec_encode_u64s(vs.drop_first()));
        assert(seq![vs.first()] + vs.drop_first() =~= vs);
    }
}

/// Serialize 16-bit values to the bytes the driver writes.
pub fn encode_u16s(data: &Vec<u16>) -> (r: Vec<u8>)
    ensures
        r@ == spec_encode_u16s(data@),
        r@.len() == 2 * data@.len(),
{
    proof {
        lemma_decode_encode_u16s(data@);
    }
    let mut r: Vec<u8> = Vec::new();
    let mut i: usize = 0;
    while i < data.len()
        invariant
            0 <= i <= data@.len(),
            r@ == spec_encode_u16s(data@.take(i as int)),
        decreases data@.len() - i,
    {
        let mut b = u16_to_le_bytes(data[i]);
        r.append(&mut b);
        proof {
            lemma_encode_u16s_push(data@.take(i as int), data@[i as int]);
            assert(data@.take(i + 1) =~= data@.take(i as int).push(data@[i as int]));
        }
        i = i + 1;
    }
    proof {
        assert(data@.take(data@.len() as int) =~= data@);
    }
    r
}

/// Serialize 32-bit values to the bytes the driver writes.
pub fn encode_u32s(data: &Vec<u32>) -> (r: Vec<u8>)
    ensures
        r@ == spec_encode_u32s(data@),
        r@.len() == 4 * data@.len(),
{
    proof {
        lemma_decode_encode_u32s(data@);
    }
    let mut r: Vec<u8> = Vec::new();
    let mut i: usize = 0;
    while i < data.len()
        invariant
            0 <= i <= data@.len(),
            r@ == spec_encode_u32s(data@.take(i as int)),
        decreases data@.len() - i,
    {
        let mut b = u32_to_le_bytes(data[i]);
        r.append(&mut b);
        proof {
            lemma_encode_u32s_push(data@.take(i as int), data@[i as int]);
            assert(data@.take(i + 1) =~= data@.take(i as int).push(data@[i as int]));
        }
        i = i + 1;
    }
    proof {
        assert(data@.take(data@.len() as int) =~= data@);
    }
    r
}

/// Serialize 64-bit values to the bytes the driver writes.
pub fn encode_u64s(data: &Vec<u64>) -> (r: Vec<u8>)
    ensures
        r@ == spec_encode_u64s(data@),
        r@.len() == 8 * data@.len(),
{
    proof {
        lemma_decode_encode_u64s(data@);
    }
    let mut r: Vec<u8> = Vec::new();
    let mut i: usize = 0;
    while i < data.len()
        invariant
            0 <= i <= data@.len(),
            r@ == spec_encode_u64s(data@.take(i as int)),
        decreases data@.len() - i,
    {
        let mut b = u64_to_le_bytes(data[i]);
        r.append(&mut b);
        proof {
            lemma_encode_u64s_push(data@.take(i as int), data@[i as int]);
            assert(data@.take(i + 1) =~= data@.take(i as int).push(data@[i as int]));
        }
        i = i + 1;
    }
    proof {
        assert(data@.take(data@.len() as int) =~= data@);
    }
    r
}

/// Reinterpret returned bytes as 16-bit values; the byte count must be
/// exactly two per value.
pub fn decode_u16s(bytes: &Vec<u8>, count: usize) -> (r: Vec<u16>)
    requires
        bytes@.len() == 2 * count,
    ensures
        r@ == spec_decode_u16s(bytes@),
        r@.len() == count,
{
    let mut r: Vec<u16> = Vec::new();
    let mut i: usize = 0;
    let blen = bytes.len();
    proof {
        assert(bytes@.skip(0) =~= bytes@);
        assert(Seq::<u16>::empty() + spec_decode_u16s(bytes@) =~= spec_decode_u16s(bytes@));
    }
    while i < count
        invariant
            0 <= i <= count,
            bytes@.len() == 2 * count,
            blen == bytes@.len(),
            r@.len() == i,
            spec_decode_u16s(bytes@) == r@ + spec_decode_u16s(bytes@.skip(2 * i)),
        decreases count - i,
    {
        let chunk = slice_subrange(bytes.as_slice(), 2 * i, 2 * i + 2);
        let v = u16_from_le_bytes(chunk);
        proof {
            let rest = bytes@.skip(2 * i);
            assert(rest.take(2) =~= bytes@.subrange(2 * i, 2 * i + 2));
            assert(rest.skip(2) =~= bytes@.skip(2 * (i + 1)));
            assert(r@.push(v) + spec_decode_u16s(bytes@.skip(2 * (i + 1))) =~= r@ + (seq![v]
                + spec_decode_u16s(bytes@.skip(2 * (i + 1)))));
        }
        r.push(v);
        i = i + 1;
    }
    proof {
        assert(bytes@.skip(2 * count) =~= Seq::<u8>::empty());
        assert(r@ + spec_decode_u16s(Seq::<u8>::empty()) =~= r@);
    }
    r
}

/// Reinterpret returned bytes as 32-bit values; the byte count must be
/// exactly four per value.
pub fn decode_u32s(bytes: &Vec<u8>, count: usize) -> (r: Vec<u32>)
    requires
        bytes@.len() == 4 * count,
    ensures
        r@ == spec_decode_u32s(bytes@),
        r@.len() == count,
{
    let mut r: Vec<u32> = Vec::new();
    let mut i: usize = 0;
    let blen = bytes.len();
    proof {
        assert(bytes@.skip(0) =~= bytes@);
        assert(Seq::<u32>::empty() + spec_decode_u32s(bytes@) =~= spec_decode_u32s(bytes@));
    }
    while i < count
        invariant
            0 <= i <= count,
            bytes@.len() == 4 * count,
            blen == bytes@.len(),
            r@.len() == i,
            spec_decode_u32s(bytes@) == r@ + spec_decode_u32s(bytes@.skip(4 * i)),
        decreases count - i,
    {
        let chunk = slice_subrange(bytes.as_slice(), 4 * i, 4 * i + 4);
        let v = u32_from_le_bytes(chunk);
        proof {
            let rest = bytes@.skip(4 * i);
            assert(rest.take(4) =~= bytes@.subrange(4 * i, 4 * i + 4));
            assert(rest.skip(4) =~= bytes@.skip(4 * (i + 1)));
            assert(r@.push(v) + spec_decode_u32s(bytes@.skip(4 * (i + 1))) =~= r@ + (seq![v]
                + spec_decode_u32s(bytes@.skip(4 * (i + 1)))));
        }
        r.push(v);
        i = i + 1;
    }
    proof {
        assert(bytes@.skip(4 * count) =~= Seq::<u8>::empty());
        assert(r@ + spec_decode_u32s(Seq::<u8>::empty()) =~= r@);
    }
    r
}

/// Reinterpret returned bytes as 64-bit values; the byte count must be
/// exactly eight per value.
pub fn decode_u64s(bytes: &Vec<u8>, count: usize) -> (r: Vec<u64>)
    requires
        bytes@.len() == 8 * count,
    ensures
        r@ == spec_decode_u64s(bytes@),
        r@.len() == count,
{
    let mut r: Vec<u64> = Vec::new();
    let mut i: usize = 0;
    let blen = bytes.len();
    proof {
        assert(bytes@.skip(0) =~= bytes@);
        assert(Seq::<u64>::empty() + spec_decode_u64s(bytes@) =~= spec_decode_u64s(bytes@));
    }
    while i < count
        invariant
            0 <= i <= count,
            bytes@.len() == 8 * count,
            blen == bytes@.len(),
            r@.len() == i,
            spec_decode_u64s(bytes@) == r@ + spec_decode_u64s(bytes@.skip(8 * i)),
        decreases count - i,
    {
        let chunk = slice_subrange(bytes.as_slice(), 8 * i, 8 * i + 8);
        let v = u64_from_le_bytes(chunk);
        proof {
            let rest = bytes@.skip(8 * i);
            assert(rest.take(8) =~= bytes@.subrange(8 * i, 8 * i + 8));
            assert(rest.skip(8) =~= bytes@.skip(8 * (i + 1)));
            assert(r@.push(v) + spec_decode_u64s(bytes@.skip(8 * (i + 1))) =~= r@ + (seq![v]
                + spec_decode_u64s(bytes@.skip(8 * (i + 1)))));
        }
        r.push(v);
        i = i + 1;
    }
    proof {
        assert(bytes@.skip(8 * count) =~= Seq::<u8>::empty());
        assert(r@ + spec_decode_u64s(Seq::<u8>::empty()) =~= r@);
    }
    r
}

/// The byte length of a typed request of `count` elements of `elem_size`
/// bytes each, as the 32-bit value the driver takes; fails when the product
/// leaves the 32-bit range. `elem_size` is one of the fixed element widths,
/// never zero.
pub fn typed_byte_length(elem_size: u32, count: usize, action: Action) -> (r: Result<
    u32,
    CubeProgrammerError,
>)
    requires
        1 <= elem_size <= 8,
    ensures
        r is Ok <==> elem_size * count <= u32::MAX,
        r matches Ok(v) ==> v == elem_size * count,
        r is Err ==> (r matches Err(CubeProgrammerError::ResourceExhaustion { action: a }) && a
            == action),
{
    let limit: u64 = (u32::MAX as u64) / (elem_size as u64);
    if (count as u64) <= limit {
        proof {
            assert(elem_size * count <= elem_size * (u32::MAX as int / elem_size as int))
                by (nonlinear_arith)
                requires
                    1 <= elem_size <= 8,
                    0 <= count <= u32::MAX as int / elem_size as int,
            ;
            assert(elem_size as int * (u32::MAX as int / elem_size as int) <= u32::MAX as int)
                by (nonlinear_arith)
                requires
                    1 <= elem_size <= 8,
            ;
        }
        Ok(((count as u64) * (elem_size as u64)) as u32)
    } else {
        proof {
            assert(elem_size * count > u32::MAX) by (nonlinear_arith)
                requires
                    1 <= elem_size <= 8,
                    count > u32::MAX as int / elem_size as int,
            ;
        }
        Err(CubeProgrammerError::ResourceExhaustion { action })
    }
}

/// Target memory over the written region, modeled as bytes: the region
/// `[off, off + data.len())` is replaced by `data`.
pub open spec fn spec_mem_write(mem: Seq<u8>, off: int, data: Seq<u8>) -> Seq<u8> {
    mem.take(off) + data + mem.skip(off + data.len())
}

/// Reading back the written region returns exactly the written bytes, and
/// writing does not change the memory's size.
pub proof fn lemma_mem_read_after_write(mem: Seq<u8>, off: int, data: Seq<u8>)
    requires
        0 <= off,
        off + data.len() <= mem.len(),
    ensures
        spec_mem_write(mem, off, data).len() == mem.len(),
        spec_mem_write(mem, off, data).subrange(off, off + data.len() as int) == data,
{
    assert(spec_mem_write(mem, off, data).subrange(off, off + data.len() as int) =~= data);
}

/// Law: the typed round trip. Writing the encoding of 32-bit values at an
/// offset and immediately reading the same number of values back yields the
/// written values, for any values and any memory contents around them.
pub proof fn lemma_typed_round_trip_u32(mem: Seq<u8>, off: int, vs: Seq<u32>)
    requires
        0 <= off,
        off + 4 * vs.len() <= mem.len(),
    ensures
        spec_decode_u32s(
            spec_mem_write(mem, off, spec_encode_u32s(vs)).subrange(off, off + 4 * vs.len()),
        ) == vs,
{
    lemma_decode_encode_u32s(vs);
    lemma_mem_read_after_write(mem, off, spec_encode_u32s(vs));
}

} // verus!
