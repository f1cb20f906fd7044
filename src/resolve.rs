//! Decoding of accessor data out of buffer bytes.
use vstd::prelude::*;

use crate::error::{ImportError, ImportErrorType};
use crate::gltf::{Accessor, AccessorType, BufferView, ComponentType};
use crate::math::{Vec2, Vec3};

verus! {

/// The little-endian 16-bit value at byte `at` of `b`.
pub open spec fn le16(b: Seq<u8>, at: int) -> int {
    b[at] + 256 * b[at + 1]
}

/// The little-endian 32-bit value at byte `at` of `b`.
pub open spec fn le32(b: Seq<u8>, at: int) -> int {
    b[at] + 256 * b[at + 1] + 65536 * b[at + 2] + 16777216 * b[at + 3]
}

/// Reads the little-endian 16-bit value at byte `at`.
pub fn read_u16(b: &Vec<u8>, at: usize) -> (r: u32)
    requires
        at + 2 <= b@.len(),
    ensures
        r == le16(b@, at as int),
        r < 65536,
{
    let n = b.len();
    let b0 = b[at] as u32;
    let b1 = b[at + 1] as u32;
    b0 + b1 * 256
}

/// Reads the little-endian 32-bit value at byte `at`.
pub fn read_u32(b: &Vec<u8>, at: usize) -> (r: u32)
    requires
        at + 4 <= b@.len(),
    ensures
        r == le32(b@, at as int),
{
    let n = b.len();
    let b0 = b[at] as u32;
    let b1 = b[at + 1] as u32;
    let b2 = b[at + 2] as u32;
    let b3 = b[at + 3] as u32;
    assert(b0 < 256 && b1 < 256 && b2 < 256 && b3 < 256);
    b0 + b1 * 256 + b2 * 65536 + b3 * 16777216
}

/// The index stored as element `i` of a packed run of `ct` components that
/// starts at byte `start`, widened to 32 bits; `None` where it is negative.
pub open spec fn index_at(b: Seq<u8>, start: int, ct: ComponentType, i: int) -> Option<u32> {
    match ct {
        ComponentType::UnsignedByte => Some(b[start + i] as u32),
        ComponentType::Byte => if b[start + i] < 128 {
            Some(b[start + i] as u32)
        } else {
            None
        },
        ComponentType::UnsignedShort => Some(le16(b, start + 2 * i) as u32),
        ComponentType::Short => if le16(b, start + 2 * i) < 32768 {
            Some(le16(b, start + 2 * i) as u32)
        } else {
            None
        },
        ComponentType::UnsignedInt => Some(le32(b, start + 4 * i) as u32),
        ComponentType::Float => None,
    }
}

/// The `count` indices that start at byte `start` all decode.
pub open spec fn indices_ok(b: Seq<u8>, start: int, ct: ComponentType, count: int) -> bool {
    &&& ct != ComponentType::Float
    &&& start + count * ct.spec_size() <= b.len()
    &&& forall|i: int| 0 <= i < count ==> #[trigger] index_at(b, start, ct, i) is Some
}

/// Decodes `count` packed indices of type `ct` starting at byte `start`,
/// widening each to 32 bits in order. A float component type is
/// unsupported; a run past the end of `b`, or a negative index, is a format
/// error.
pub fn decode_indices(b: &Vec<u8>, start: usize, ct: ComponentType, count: usize) -> (r: Result<Vec<u32>, ImportError>)
    ensures
        r is Ok <==> indices_ok(b@, start as int, ct, count as int),
        r is Ok ==> r->Ok_0@.len() == count && forall|i: int|
            0 <= i < count ==> Some(#[trigger] r->Ok_0@[i]) == index_at(b@, start as int, ct, i),
        ct == ComponentType::Float ==> r is Err && r->Err_0.e_type == ImportErrorType::Unsupported,
        r is Err && ct != ComponentType::Float ==> r->Err_0.e_type == ImportErrorType::Format,
{
    if ct == ComponentType::Float {
        return Err(ImportError::unsupported("float indices"));
    }
    let size = ct.size();
    if start > b.len() || count > (b.len() - start) / size {
        proof {
            if start <= b@.len() {
                assert(count * size > b@.len() - start) by (nonlinear_arith)
                    requires
                        count > (b@.len() - start) / (size as int),
                        size > 0,
                ;
            }
        }
        return Err(ImportError::format("accessor range"));
    }
    proof {
        assert(count * size <= b@.len() - start) by (nonlinear_arith)
            requires
                count <= (b@.len() - start) / (size as int),
                size > 0,
                b@.len() >= start,
        ;
    }
    let mut out: Vec<u32> = Vec::new();
    let mut i: usize = 0;
    while i < count
        invariant
            0 <= i <= count,
            ct != ComponentType::Float,
            size == ct.spec_size(),
            start + count * size <= b@.len(),
            b@.len() <= usize::MAX,
            out@.len() == i,
            forall|j: int| 0 <= j < i ==> Some(#[trigger] out@[j]) == index_at(b@, start as int, ct, j),
            forall|j: int| 0 <= j < i ==> (#[trigger] index_at(b@, start as int, ct, j)) is Some,
        decreases count - i,
    {
        proof {
            assert(start + i * size + size <= b@.len()) by (nonlinear_arith)
                requires
                    i < count,
                    start + count * size <= b@.len(),
                    size > 0,
            ;
        }
        let value: u32 = match ct {
            ComponentType::UnsignedByte => b[start + i] as u32,
            ComponentType::Byte => {
                if b[start + i] >= 128 {
                    assert(index_at(b@, start as int, ct, i as int) is None);
                    return Err(ImportError::format("negative index"));
                }
                b[start + i] as u32
            },
            ComponentType::UnsignedShort => read_u16(b, start + 2 * i),
            ComponentType::Short => {
                let v = read_u16(b, start + 2 * i);
                if v >= 32768 {
                    assert(index_at(b@, start as int, ct, i as int) is None);
                    return Err(ImportError::format("negative index"));
                }
                v
            },
            _ => read_u32(b, start + 4 * i),
        };
        out.push(value);
        i = i + 1;
    }
    Ok(out)
}

/// The three single-precision values at byte `at`, as bits.
pub open spec fn vec3_at(b: Seq<u8>, at: int) -> Vec3 {
    Vec3 { x: le32(b, at) as u32, y: le32(b, at + 4) as u32, z: le32(b, at + 8) as u32 }
}

/// The two single-precision values at byte `at`, as bits.
pub open spec fn vec2_at(b: Seq<u8>, at: int) -> Vec2 {
    Vec2 { x: le32(b, at) as u32, y: le32(b, at + 4) as u32 }
}

/// Decodes `count` packed triples of single-precision values starting at
/// byte `start`.
pub fn decode_vec3s(b: &Vec<u8>, start: usize, count: usize) -> (r: Vec<Vec3>)
    requires
        start + 12 * count <= b@.len(),
    ensures
        r@ == Seq::new(count as nat, |i: int| vec3_at(b@, start + 12 * i)),
{
    let n = b.len();
    let mut out: Vec<Vec3> = Vec::new();
    let mut i: usize = 0;
    while i < count
        invariant
            0 <= i <= count,
            start + 12 * count <= b@.len(),
            b@.len() <= usize::MAX,
            out@ == Seq::new(i as nat, |j: int| vec3_at(b@, start + 12 * j)),
        decreases count - i,
    {
        let at = start + 12 * i;
        let v = Vec3 { x: read_u32(b, at), y: read_u32(b, at + 4), z: read_u32(b, at + 8) };
        out.push(v);
        i = i + 1;
        assert(out@ =~= Seq::new(i as nat, |j: int| vec3_at(b@, start + 12 * j)));
    }
    out
}

/// Decodes `count` packed pairs of single-precision values starting at byte
/// `start`.
pub fn decode_vec2s(b: &Vec<u8>, start: usize, count: usize) -> (r: Vec<Vec2>)
    requires
        start + 8 * count <= b@.len(),
    ensures
        r@ == Seq::new(count as nat, |i: int| vec2_at(b@, start + 8 * i)),
{
    let n = b.len();
    let mut out: Vec<Vec2> = Vec::new();
    let mut i: usize = 0;
    while i < count
        invariant
            0 <= i <= count,
            start + 8 * count <= b@.len(),
            b@.len() <= usize::MAX,
            out@ == Seq::new(i as nat, |j: int| vec2_at(b@, start + 8 * j)),
        decreases count - i,
    {
        let at = start + 8 * i;
        let v = Vec2 { x: read_u32(b, at), y: read_u32(b, at + 4) };
        out.push(v);
        i = i + 1;
        assert(out@ =~= Seq::new(i as nat, |j: int| vec2_at(b@, start + 8 * j)));
    }
    out
}

/// The byte window of accessor `a` in view `v`: `(buffer, start, end)`,
/// where `start` is the sum of the two offsets and `end` is `start` plus the
/// view's length.
pub open spec fn window(v: BufferView, a: Accessor) -> (int, int, int) {
    let start = v.byte_offset + a.byte_offset;
    (v.buffer as int, start, start + v.byte_length)
}

/// The window of `a` in `v` lies inside the loaded buffers `bufs`.
pub open spec fn window_ok(bufs: Seq<Vec<u8>>, v: BufferView, a: Accessor) -> bool {
    let (bi, start, end) = window(v, a);
    bi < bufs.len() && end <= bufs[bi]@.len()
}

/// Locates the window of accessor `a` in view `v`: the buffer's position,
/// and the start and end bytes. A window past the end of its buffer, or a
/// buffer that is not there, is a format error.
pub fn locate(bufs: &Vec<Vec<u8>>, v: &BufferView, a: &Accessor) -> (r: Result<(usize, usize, usize), ImportError>)
    ensures
        r is Ok <==> window_ok(bufs@, *v, *a),
        r is Ok ==> r->Ok_0.0 == window(*v, *a).0 && r->Ok_0.1 == window(*v, *a).1 && r->Ok_0.2
            == window(*v, *a).2,
        r is Err ==> r->Err_0.e_type == ImportErrorType::Format,
{
    if v.buffer >= bufs.len() as u64 {
        return Err(ImportError::format("buffer"));
    }
    let bi = v.buffer as usize;
    let len = bufs[bi].len() as u64;
    if v.byte_offset > len || a.byte_offset > len - v.byte_offset {
        return Err(ImportError::format("byteOffset"));
    }
    let start = v.byte_offset + a.byte_offset;
    if v.byte_length > len - start {
        return Err(ImportError::format("byteLength"));
    }
    let end = start + v.byte_length;
    Ok((bi, start as usize, end as usize))
}

/// The stride of `v` is absent, zero, or the size of one packed element.
pub open spec fn stride_ok(v: BufferView, natural: int) -> bool {
    v.byte_stride is None || v.byte_stride == Some(0u64) || v.byte_stride == Some(natural as u64)
}

/// Whether the stride of `v` allows a packed read of elements of `natural`
/// bytes.
pub fn packed_stride(v: &BufferView, natural: u64) -> (r: bool)
    ensures
        r == stride_ok(*v, natural as int),
{
    match v.byte_stride {
        Some(s) => s == 0 || s == natural,
        None => true,
    }
}

/// An accessor of single-precision triples whose data lie in its window.
pub open spec fn vec3_accessor_ok(bufs: Seq<Vec<u8>>, v: BufferView, a: Accessor) -> bool {
    &&& a.component_type == ComponentType::Float
    &&& a.a_type == AccessorType::Vec3
    &&& stride_ok(v, 12)
    &&& window_ok(bufs, v, a)
    &&& window(v, a).1 + 12 * a.count <= window(v, a).2
}

/// An accessor of single-precision pairs whose data lie in its window.
pub open spec fn vec2_accessor_ok(bufs: Seq<Vec<u8>>, v: BufferView, a: Accessor) -> bool {
    &&& a.component_type == ComponentType::Float
    &&& a.a_type == AccessorType::Vec2
    &&& stride_ok(v, 8)
    &&& window_ok(bufs, v, a)
    &&& window(v, a).1 + 8 * a.count <= window(v, a).2
}

/// The triples that accessor `a` holds.
pub open spec fn vec3_values(bufs: Seq<Vec<u8>>, v: BufferView, a: Accessor) -> Seq<Vec3> {
    let (bi, start, end) = window(v, a);
    Seq::new(a.count as nat, |i: int| vec3_at(bufs[bi]@, start + 12 * i))
}

/// The pairs that accessor `a` holds.
pub open spec fn vec2_values(bufs: Seq<Vec<u8>>, v: BufferView, a: Accessor) -> Seq<Vec2> {
    let (bi, start, end) = window(v, a);
    Seq::new(a.count as nat, |i: int| vec2_at(bufs[bi]@, start + 8 * i))
}

/// Decodes accessor `a` of view `v` as single-precision triples. Another
/// component type or shape, or an interleaving stride, is unsupported; data
/// outside the buffer are a format error.
pub fn read_vec3s(bufs: &Vec<Vec<u8>>, v: &BufferView, a: &Accessor) -> (r: Result<Vec<Vec3>, ImportError>)
    ensures
        r is Ok <==> vec3_accessor_ok(bufs@, *v, *a),
        r is Ok ==> r->Ok_0@ == vec3_values(bufs@, *v, *a),
        r is Err ==> (r->Err_0.e_type == ImportErrorType::Unsupported <==> (a.component_type
            != ComponentType::Float || a.a_type != AccessorType::Vec3 || !stride_ok(*v, 12))),
        r is Err ==> r->Err_0.e_type == ImportErrorType::Format || r->Err_0.e_type
            == ImportErrorType::Unsupported,
{
    if a.component_type != ComponentType::Float || a.a_type != AccessorType::Vec3 {
        return Err(ImportError::unsupported("attribute layout"));
    }
    if !packed_stride(v, 12) {
        return Err(ImportError::unsupported("byteStride"));
    }
    let (bi, start, end) = locate(bufs, v, a)?;
    if a.count > ((end - start) / 12) as u64 {
        return Err(ImportError::format("count"));
    }
    let count = a.count as usize;
    Ok(decode_vec3s(&bufs[bi], start, count))
}

/// Decodes accessor `a` of view `v` as single-precision pairs, as
/// `read_vec3s` does triples.
pub fn read_vec2s(bufs: &Vec<Vec<u8>>, v: &BufferView, a: &Accessor) -> (r: Result<Vec<Vec2>, ImportError>)
    ensures
        r is Ok <==> vec2_accessor_ok(bufs@, *v, *a),
        r is Ok ==> r->Ok_0@ == vec2_values(bufs@, *v, *a),
        r is Err ==> (r->Err_0.e_type == ImportErrorType::Unsupported <==> (a.component_type
            != ComponentType::Float || a.a_type != AccessorType::Vec2 || !stride_ok(*v, 8))),
        r is Err ==> r->Err_0.e_type == ImportErrorType::Format || r->Err_0.e_type
            == ImportErrorType::Unsupported,
{
    if a.component_type != ComponentType::Float || a.a_type != AccessorType::Vec2 {
        return Err(ImportError::unsupported("attribute layout"));
    }
    if !packed_stride(v, 8) {
        return Err(ImportError::unsupported("byteStride"));
    }
    let (bi, start, end) = locate(bufs, v, a)?;
    if a.count > ((end - start) / 8) as u64 {
        return Err(ImportError::format("count"));
    }
    let count = a.count as usize;
    Ok(decode_vec2s(&bufs[bi], start, count))
}

/// The indices that accessor `a` holds decode.
pub open spec fn index_accessor_ok(bufs: Seq<Vec<u8>>, v: BufferView, a: Accessor) -> bool {
    &&& window_ok(bufs, v, a)
    &&& a.component_type != ComponentType::Float
    &&& window(v, a).1 + a.count * a.component_type.spec_size() <= window(v, a).2
    &&& forall|i: int|
        0 <= i < a.count ==> #[trigger] index_at(bufs[window(v, a).0]@, window(v, a).1, a.component_type, i) is Some
}

/// Decodes accessor `a` of view `v` as indices widened to 32 bits.
pub fn read_indices(bufs: &Vec<Vec<u8>>, v: &BufferView, a: &Accessor) -> (r: Result<Vec<u32>, ImportError>)
    ensures
        r is Ok <==> index_accessor_ok(bufs@, *v, *a),
        r is Ok ==> r->Ok_0@.len() == a.count && forall|i: int|
            0 <= i < a.count ==> Some(#[trigger] r->Ok_0@[i]) == index_at(
                bufs@[window(*v, *a).0]@,
                window(*v, *a).1,
                a.component_type,
                i,
            ),
        r is Err ==> (r->Err_0.e_type == ImportErrorType::Unsupported <==> (window_ok(
            bufs@,
            *v,
            *a,
        ) && a.component_type == ComponentType::Float)),
        r is Err ==> r->Err_0.e_type == ImportErrorType::Format || r->Err_0.e_type
            == ImportErrorType::Unsupported,
{
    let (bi, start, end) = locate(bufs, v, a)?;
    if a.component_type == ComponentType::Float {
        return Err(ImportError::unsupported("float indices"));
    }
    let size = a.component_type.size();
    if a.count > ((end - start) / size) as u64 {
        proof {
            assert(a.count * size > end - start) by (nonlinear_arith)
                requires
                    a.count > (end - start) / (size as int),
                    size > 0,
            ;
        }
        return Err(ImportError::format("count"));
    }
    proof {
        assert(a.count * size <= end - start) by (nonlinear_arith)
            requires
                a.count <= (end - start) / (size as int),
                size > 0,
                end >= start,
        ;
    }
    let count = a.count as usize;
    decode_indices(&bufs[bi], start, a.component_type, count)
}

} // verus!
