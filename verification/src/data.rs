//! The typed view over a tensor's mapped storage. The native runtime hands
//! a mapped buffer back as raw bytes; exactly one `MappedData` variant is
//! built from them, selected by the tensor's reported element type, so a
//! caller can never read the buffer through the wrong element type.
//! Multi-byte elements are assembled from the buffer in the platform's
//! little-endian layout; the three floating-point kinds are carried as
//! their IEEE-754 bit patterns, which keeps the view free of
//! floating-point arithmetic.

use crate::error::Error;
use crate::tensor::TensorType;
use crate::text::{has_nul_byte, nul_pos};
use vstd::bytes::{
    spec_u16_from_le_bytes, spec_u32_from_le_bytes, spec_u64_from_le_bytes, u16_from_le_bytes,
    u32_from_le_bytes, u64_from_le_bytes,
};
use vstd::prelude::*;
use vstd::slice::{slice_subrange, slice_to_vec};
use vstd::string::StringExecFns;
use vstd::utf8::{decode_utf8, valid_utf8};

verus! {

/// A read-only, element-typed view of a tensor's storage: one variant per
/// element kind. `F16`, `F32` and `F64` hold the elements' IEEE-754 bit
/// patterns; `STR` holds the NUL-terminated text decoded from the buffer.
pub enum MappedData {
    RAW(Vec<u8>),
    STR(String),
    I8(Vec<i8>),
    U8(Vec<u8>),
    I16(Vec<i16>),
    U16(Vec<u16>),
    I32(Vec<i32>),
    U32(Vec<u32>),
    I64(Vec<i64>),
    U64(Vec<u64>),
    F16(Vec<u16>),
    F32(Vec<u32>),
    F64(Vec<u64>),
}

impl MappedData {
    /// Whether this view's variant is the one that element type `t` selects.
    pub open spec fn matches_type(&self, t: TensorType) -> bool {
        match t {
            TensorType::RAW => self is RAW,
            TensorType::STR => self is STR,
            TensorType::I8 => self is I8,
            TensorType::U8 => self is U8,
            TensorType::I16 => self is I16,
            TensorType::U16 => self is U16,
            TensorType::I32 => self is I32,
            TensorType::U32 => self is U32,
            TensorType::I64 => self is I64,
            TensorType::U64 => self is U64,
            TensorType::F16 => self is F16,
            TensorType::F32 => self is F32,
            TensorType::F64 => self is F64,
        }
    }

    /// Number of elements the view holds (characters, for text).
    pub open spec fn spec_len(&self) -> nat {
        match self {
            MappedData::RAW(v) => v@.len(),
            MappedData::STR(s) => s@.len(),
            MappedData::I8(v) => v@.len(),
            MappedData::U8(v) => v@.len(),
            MappedData::I16(v) => v@.len(),
            MappedData::U16(v) => v@.len(),
            MappedData::I32(v) => v@.len(),
            MappedData::U32(v) => v@.len(),
            MappedData::I64(v) => v@.len(),
            MappedData::U64(v) => v@.len(),
            MappedData::F16(v) => v@.len(),
            MappedData::F32(v) => v@.len(),
            MappedData::F64(v) => v@.len(),
        }
    }

    /// Number of elements the view holds (characters, for text).
    pub fn len(&self) -> (r: usize)
        ensures
            r == self.spec_len(),
    {
        match self {
            MappedData::RAW(v) => v.len(),
            MappedData::STR(s) => s.as_str().unicode_len(),
            MappedData::I8(v) => v.len(),
            MappedData::U8(v) => v.len(),
            MappedData::I16(v) => v.len(),
            MappedData::U16(v) => v.len(),
            MappedData::I32(v) => v.len(),
            MappedData::U32(v) => v.len(),
            MappedData::I64(v) => v.len(),
            MappedData::U64(v) => v.len(),
            MappedData::F16(v) => v.len(),
            MappedData::F32(v) => v.len(),
            MappedData::F64(v) => v.len(),
        }
    }
}

/// The signed value whose two's-complement bit pattern is `u`.
pub open spec fn i8_of_bits(u: u8) -> i8 {
    if u < 0x80 {
        u as i8
    } else {
        (u - 0x100) as i8
    }
}

/// The signed value whose two's-complement bit pattern is `u`.
pub open spec fn i16_of_bits(u: u16) -> i16 {
    if u < 0x8000 {
        u as i16
    } else {
        (u - 0x10000) as i16
    }
}

/// The signed value whose two's-complement bit pattern is `u`.
pub open spec fn i32_of_bits(u: u32) -> i32 {
    if u < 0x8000_0000 {
        u as i32
    } else {
        (u - 0x1_0000_0000) as i32
    }
}

/// The signed value whose two's-complement bit pattern is `u`.
pub open spec fn i64_of_bits(u: u64) -> i64 {
    if u < 0x8000_0000_0000_0000 {
        u as i64
    } else {
        (u - 0x1_0000_0000_0000_0000) as i64
    }
}

fn i8_from_bits(u: u8) -> (r: i8)
    ensures
        r == i8_of_bits(u),
{
    if u < 0x80 {
        u as i8
    } else {
        -((0xff - u) as i8) - 1
    }
}

fn i16_from_bits(u: u16) -> (r: i16)
    ensures
        r == i16_of_bits(u),
{
    if u < 0x8000 {
        u as i16
    } else {
        -((0xffff - u) as i16) - 1
    }
}

fn i32_from_bits(u: u32) -> (r: i32)
    ensures
        r == i32_of_bits(u),
{
    if u < 0x8000_0000 {
        u as i32
    } else {
        -((0xffff_ffff - u) as i32) - 1
    }
}

fn i64_from_bits(u: u64) -> (r: i64)
    ensures
        r == i64_of_bits(u),
{
    if u < 0x8000_0000_0000_0000 {
        u as i64
    } else {
        -((0xffff_ffff_ffff_ffff - u) as i64) - 1
    }
}

/// The `n` 16-bit words laid out little-endian in `b`.
pub open spec fn le_u16_seq(b: Seq<u8>, n: int) -> Seq<u16> {
    Seq::new(n as nat, |k: int| spec_u16_from_le_bytes(b.subrange(2 * k, 2 * k + 2)))
}

/// The `n` 32-bit words laid out little-endian in `b`.
pub open spec fn le_u32_seq(b: Seq<u8>, n: int) -> Seq<u32> {
    Seq::new(n as nat, |k: int| spec_u32_from_le_bytes(b.subrange(4 * k, 4 * k + 4)))
}

/// The `n` 64-bit words laid out little-endian in `b`.
pub open spec fn le_u64_seq(b: Seq<u8>, n: int) -> Seq<u64> {
    Seq::new(n as nat, |k: int| spec_u64_from_le_bytes(b.subrange(8 * k, 8 * k + 8)))
}

/// The `n` signed bytes of `b`.
pub open spec fn le_i8_seq(b: Seq<u8>, n: int) -> Seq<i8> {
    Seq::new(n as nat, |k: int| i8_of_bits(b[k]))
}

/// The `n` signed 16-bit words laid out little-endian in `b`.
pub open spec fn le_i16_seq(b: Seq<u8>, n: int) -> Seq<i16> {
    Seq::new(n as nat, |k: int| i16_of_bits(le_u16_seq(b, n)[k]))
}

/// The `n` signed 32-bit words laid out little-endian in `b`.
pub open spec fn le_i32_seq(b: Seq<u8>, n: int) -> Seq<i32> {
    Seq::new(n as nat, |k: int| i32_of_bits(le_u32_seq(b, n)[k]))
}

/// The `n` signed 64-bit words laid out little-endian in `b`.
pub open spec fn le_i64_seq(b: Seq<u8>, n: int) -> Seq<i64> {
    Seq::new(n as nat, |k: int| i64_of_bits(le_u64_seq(b, n)[k]))
}

fn decode_u16s(b: &[u8], count: usize) -> (v: Vec<u16>)
    requires
        b@.len() == 2 * count,
    ensures
        v@ == le_u16_seq(b@, count as int),
{
    let _total = b.len();
    let mut v: Vec<u16> = Vec::new();
    let mut i: usize = 0;
    while i < count
        invariant
            b@.len() == 2 * count,
            2 * count <= usize::MAX,
            0 <= i <= count,
            v@ == le_u16_seq(b@, count as int).take(i as int),
        decreases count - i,
    {
        let x = u16_from_le_bytes(slice_subrange(b, 2 * i, 2 * i + 2));
        v.push(x);
        proof {
            assert(v@ =~= le_u16_seq(b@, count as int).take(i + 1));
        }
        i += 1;
    }
    proof {
        assert(v@ =~= le_u16_seq(b@, count as int));
    }
    v
}

fn decode_u32s(b: &[u8], count: usize) -> (v: Vec<u32>)
    requires
        b@.len() == 4 * count,
    ensures
        v@ == le_u32_seq(b@, count as int),
{
    let _total = b.len();
    let mut v: Vec<u32> = Vec::new();
    let mut i: usize = 0;
    while i < count
        invariant
            b@.len() == 4 * count,
            4 * count <= usize::MAX,
            0 <= i <= count,
            v@ == le_u32_seq(b@, count as int).take(i as int),
        decreases count - i,
    {
        let x = u32_from_le_bytes(slice_subrange(b, 4 * i, 4 * i + 4));
        v.push(x);
        proof {
            assert(v@ =~= le_u32_seq(b@, count as int).take(i + 1));
        }
        i += 1;
    }
    proof {
        assert(v@ =~= le_u32_seq(b@, count as int));
    }
    v
}

fn decode_u64s(b: &[u8], count: usize) -> (v: Vec<u64>)
    requires
        b@.len() == 8 * count,
    ensures
        v@ == le_u64_seq(b@, count as int),
{
    let _total = b.len();
    let mut v: Vec<u64> = Vec::new();
    let mut i: usize = 0;
    while i < count
        invariant
            b@.len() == 8 * count,
            8 * count <= usize::MAX,
            0 <= i <= count,
            v@ == le_u64_seq(b@, count as int).take(i as int),
        decreases count - i,
    {
        let x = u64_from_le_bytes(slice_subrange(b, 8 * i, 8 * i + 8));
        v.push(x);
        proof {
            assert(v@ =~= le_u64_seq(b@, count as int).take(i + 1));
        }
        i += 1;
    }
    proof {
        assert(v@ =~= le_u64_seq(b@, count as int));
    }
    v
}

fn decode_i8s(b: &[u8]) -> (v: Vec<i8>)
    ensures
        v@ == le_i8_seq(b@, b@.len() as int),
{
    let n = b.len();
    let mut v: Vec<i8> = Vec::new();
    let mut i: usize = 0;
    while i < n
        invariant
            n == b@.len(),
            0 <= i <= n,
            v@ == le_i8_seq(b@, n as int).take(i as int),
        decreases n - i,
    {
        let x = i8_from_bits(b[i]);
        v.push(x);
        proof {
            assert(v@ =~= le_i8_seq(b@, n as int).take(i + 1));
        }
        i += 1;
    }
    proof {
        assert(v@ =~= le_i8_seq(b@, n as int));
    }
    v
}

fn decode_i16s(b: &[u8], count: usize) -> (v: Vec<i16>)
    requires
        b@.len() == 2 * count,
    ensures
        v@ == le_i16_seq(b@, count as int),
{
    let _total = b.len();
    let mut v: Vec<i16> = Vec::new();
    let mut i: usize = 0;
    while i < count
        invariant
            b@.len() == 2 * count,
            2 * count <= usize::MAX,
            0 <= i <= count,
            v@ == le_i16_seq(b@, count as int).take(i as int),
        decreases count - i,
    {
        let x = i16_from_bits(u16_from_le_bytes(slice_subrange(b, 2 * i, 2 * i + 2)));
        v.push(x);
        proof {
            assert(v@ =~= le_i16_seq(b@, count as int).take(i + 1));
        }
        i += 1;
    }
    proof {
        assert(v@ =~= le_i16_seq(b@, count as int));
    }
    v
}

fn decode_i32s(b: &[u8], count: usize) -> (v: Vec<i32>)
    requires
        b@.len() == 4 * count,
    ensures
        v@ == le_i32_seq(b@, count as int),
{
    let _total = b.len();
    let mut v: Vec<i32> = Vec::new();
    let mut i: usize = 0;
    while i < count
        invariant
            b@.len() == 4 * count,
            4 * count <= usize::MAX,
            0 <= i <= count,
            v@ == le_i32_seq(b@, count as int).take(i as int),
        decreases count - i,
    {
        let x = i32_from_bits(u32_from_le_bytes(slice_subrange(b, 4 * i, 4 * i + 4)));
        v.push(x);
        proof {
            assert(v@ =~= le_i32_seq(b@, count as int).take(i + 1));
        }
        i += 1;
    }
    proof {
        assert(v@ =~= le_i32_seq(b@, count as int));
    }
    v
}

fn decode_i64s(b: &[u8], count: usize) -> (v: Vec<i64>)
    requires
        b@.len() == 8 * count,
    ensures
        v@ == le_i64_seq(b@, count as int),
{
    let _total = b.len();
    let mut v: Vec<i64> = Vec::new();
    let mut i: usize = 0;
    while i < count
        invariant
            b@.len() == 8 * count,
            8 * count <= usize::MAX,
            0 <= i <= count,
            v@ == le_i64_seq(b@, count as int).take(i as int),
        decreases count - i,
    {
        let x = i64_from_bits(u64_from_le_bytes(slice_subrange(b, 8 * i, 8 * i + 8)));
        v.push(x);
        proof {
            assert(v@ =~= le_i64_seq(b@, count as int).take(i + 1));
        }
        i += 1;
    }
    proof {
        assert(v@ =~= le_i64_seq(b@, count as int));
    }
    v
}

/// Whether mapped bytes `b` are acceptable for a tensor of element type
/// `t` with `size` elements: text needs a NUL terminator and a valid
/// encoding before it; every other kind needs exactly `size` elements'
/// worth of bytes.
pub open spec fn bytes_accepted(t: TensorType, size: int, b: Seq<u8>) -> bool {
    if t is STR {
        has_nul_byte(b) && valid_utf8(b.take(nul_pos(b)))
    } else {
        b.len() == size * t.elem_width_spec()
    }
}

/// What the view built from mapped bytes `b` holds, element kind by
/// element kind.
pub open spec fn mapped_data_ok(t: TensorType, size: int, b: Seq<u8>, d: MappedData) -> bool {
    match t {
        TensorType::RAW => d matches MappedData::RAW(v) && v@ == b,
        TensorType::STR => d matches MappedData::STR(s) && s@ == decode_utf8(b.take(nul_pos(b))),
        TensorType::I8 => d matches MappedData::I8(v) && v@ == le_i8_seq(b, size),
        TensorType::U8 => d matches MappedData::U8(v) && v@ == b,
        TensorType::I16 => d matches MappedData::I16(v) && v@ == le_i16_seq(b, size),
        TensorType::U16 => d matches MappedData::U16(v) && v@ == le_u16_seq(b, size),
        TensorType::I32 => d matches MappedData::I32(v) && v@ == le_i32_seq(b, size),
        TensorType::U32 => d matches MappedData::U32(v) && v@ == le_u32_seq(b, size),
        TensorType::I64 => d matches MappedData::I64(v) && v@ == le_i64_seq(b, size),
        TensorType::U64 => d matches MappedData::U64(v) && v@ == le_u64_seq(b, size),
        TensorType::F16 => d matches MappedData::F16(v) && v@ == le_u16_seq(b, size),
        TensorType::F32 => d matches MappedData::F32(v) && v@ == le_u32_seq(b, size),
        TensorType::F64 => d matches MappedData::F64(v) && v@ == le_u64_seq(b, size),
    }
}

/// Builds the typed view over mapped bytes: the one dispatch point that
/// reads the element-type tag, covering all element kinds with no
/// fallback. Rejected bytes (wrong length, or text without a terminator
/// or with an invalid encoding) are a wrapper error, never a panic.
pub fn decode_mapped(ttype: TensorType, size: i32, b: &[u8]) -> (r: Result<MappedData, Error>)
    ensures
        match r {
            Ok(d) => bytes_accepted(ttype, size as int, b@) && mapped_data_ok(
                ttype,
                size as int,
                b@,
                d,
            ),
            Err(e) => !bytes_accepted(ttype, size as int, b@) && e is WrapperError,
        },
{
    if ttype == TensorType::STR {
        let pos = crate::text::find_nul_byte(b);
        if pos == b.len() {
            proof {
                crate::text::lemma_nul_pos(b@);
            }
            return Err(
                Error::WrapperError(String::from_str("mapped text has no nul terminator")),
            );
        }
        proof {
            crate::text::lemma_nul_pos(b@);
        }
        let prefix = slice_to_vec(slice_subrange(b, 0, pos));
        proof {
            assert(prefix@ =~= b@.take(nul_pos(b@)));
        }
        return match crate::text::decode_text(prefix) {
            Ok(s) => Ok(MappedData::STR(s)),
            Err(e) => Err(e),
        };
    }
    // Fixed-width kinds: the buffer must hold exactly `size` elements.
    let width = ttype.elem_width();
    if size < 0 {
        return Err(Error::WrapperError(String::from_str("mapped byte length mismatch")));
    }
    let count = size as usize;
    let blen = b.len();
    let expected = match count.checked_mul(width) {
        Some(n) => n,
        None => {
            // More bytes than any slice can hold would be needed.
            proof {
                assert(blen <= usize::MAX);
            }
            return Err(Error::WrapperError(String::from_str("mapped byte length mismatch")));
        },
    };
    if b.len() != expected {
        return Err(Error::WrapperError(String::from_str("mapped byte length mismatch")));
    }
    match ttype {
        TensorType::RAW => Ok(MappedData::RAW(slice_to_vec(b))),
        TensorType::STR => Err(Error::WrapperError(String::from_str("unreachable text kind"))),
        TensorType::I8 => {
            let v = decode_i8s(b);
            proof {
                assert(v@ =~= le_i8_seq(b@, size as int));
            }
            Ok(MappedData::I8(v))
        },
        TensorType::U8 => Ok(MappedData::U8(slice_to_vec(b))),
        TensorType::I16 => Ok(MappedData::I16(decode_i16s(b, count))),
        TensorType::U16 => Ok(MappedData::U16(decode_u16s(b, count))),
        TensorType::I32 => Ok(MappedData::I32(decode_i32s(b, count))),
        TensorType::U32 => Ok(MappedData::U32(decode_u32s(b, count))),
        TensorType::I64 => Ok(MappedData::I64(decode_i64s(b, count))),
        TensorType::U64 => Ok(MappedData::U64(decode_u64s(b, count))),
        TensorType::F16 => Ok(MappedData::F16(decode_u16s(b, count))),
        TensorType::F32 => Ok(MappedData::F32(decode_u32s(b, count))),
        TensorType::F64 => Ok(MappedData::F64(decode_u64s(b, count))),
    }
}

/// An accepted view holds the variant its element type selects, and every
/// fixed-width view holds exactly `size` elements (a text view's element
/// count is the decoded character count instead).
pub proof fn lemma_mapped_data_matches(t: TensorType, size: int, b: Seq<u8>, d: MappedData)
    requires
        bytes_accepted(t, size, b),
        mapped_data_ok(t, size, b, d),
    ensures
        d.matches_type(t),
        !(t is STR) ==> d.spec_len() == size,
{
    match t {
        TensorType::RAW => {
            assert(size * 1 == size) by (nonlinear_arith);
        },
        TensorType::U8 => {
            assert(size * 1 == size) by (nonlinear_arith);
        },
        _ => {},
    }
}

} // verus!
