//! The accumulated mesh: append-only vertex and triangle buffers, and the
//! binary export layout.
use vstd::prelude::*;

use crate::entities::StepError;
use crate::geom::{f32_bits, pos_bits, Point3};

verus! {

/// One mesh vertex: position, outward unit normal, and a placeholder color.
#[derive(Clone, Copy)]
pub struct Vertex {
    pub pos: Point3,
    pub norm: Point3,
    pub color: Point3,
}

/// One triangle as indices into the vertex buffer, wound so that the cross
/// product of its edges points along the surface's outward normal.
#[derive(Clone, Copy, Debug)]
pub struct Triangle {
    pub verts: [u32; 3],
}

/// Whether every index of the triangle lies inside a vertex buffer of length
/// `n`.
pub open spec fn tri_in_range(t: Triangle, n: int) -> bool {
    t.verts[0] < n && t.verts[1] < n && t.verts[2] < n
}

/// The fixed 80-byte export header.
pub open spec fn header_bytes() -> Seq<u8> {
    Seq::new(80, |i: int| 120u8)
}

/// The four little-endian bytes of a 32-bit value.
pub open spec fn le4(x: u32) -> Seq<u8> {
    seq![
        (x % 256) as u8,
        ((x / 256) % 256) as u8,
        ((x / 65536) % 256) as u8,
        ((x / 16777216) % 256) as u8,
    ]
}

/// A run of `n` zero bytes.
pub open spec fn zero_bytes(n: int) -> Seq<u8> {
    Seq::new(n as nat, |i: int| 0u8)
}

/// The twelve position bytes of one vertex: each coordinate narrowed to
/// single precision, little-endian.
pub open spec fn vertex_bytes(v: Vertex) -> Seq<u8> {
    le4(f32_bits(v.pos).0) + le4(f32_bits(v.pos).1) + le4(f32_bits(v.pos).2)
}

/// The fifty bytes of one exported triangle: a zeroed placeholder normal,
/// the three vertex positions, and a zero attribute field.
pub open spec fn tri_bytes(t: Triangle, vs: Seq<Vertex>) -> Seq<u8> {
    zero_bytes(12) + vertex_bytes(vs[t.verts[0] as int]) + vertex_bytes(vs[t.verts[1] as int])
        + vertex_bytes(vs[t.verts[2] as int]) + zero_bytes(2)
}

/// The concatenated bodies of the first `k` triangles.
pub open spec fn body_bytes(ts: Seq<Triangle>, vs: Seq<Vertex>) -> Seq<u8>
    decreases ts.len(),
{
    if ts.len() == 0 {
        Seq::empty()
    } else {
        body_bytes(ts.drop_last(), vs) + tri_bytes(ts.last(), vs)
    }
}

/// The whole export: header, little-endian triangle count, then one
/// fifty-byte record per triangle.
pub open spec fn stl_spec(ts: Seq<Triangle>, vs: Seq<Vertex>) -> Seq<u8> {
    header_bytes() + le4(ts.len() as u32) + body_bytes(ts, vs)
}

/// The export of `n` triangles is exactly `84 + 50 * n` bytes long.
pub proof fn lemma_stl_len(ts: Seq<Triangle>, vs: Seq<Vertex>)
    ensures
        body_bytes(ts, vs).len() == 50 * ts.len(),
        stl_spec(ts, vs).len() == 84 + 50 * ts.len(),
    decreases ts.len(),
{
    if ts.len() > 0 {
        lemma_stl_len(ts.drop_last(), vs);
    }
}

/// Appends the four little-endian bytes of `x`.
fn push_le4(out: &mut Vec<u8>, x: u32)
    ensures
        final(out)@ == old(out)@ + le4(x),
{
    out.push((x % 256) as u8);
    out.push(((x / 256) % 256) as u8);
    out.push(((x / 65536) % 256) as u8);
    out.push(((x / 16777216) % 256) as u8);
    assert(out@ =~= old(out)@ + le4(x));
}

/// Appends `n` zero bytes.
fn push_zeros(out: &mut Vec<u8>, n: usize)
    ensures
        final(out)@ == old(out)@ + zero_bytes(n as int),
{
    let mut i: usize = 0;
    while i < n
        invariant
            i <= n,
            out@ == old(out)@ + zero_bytes(i as int),
        decreases n - i,
    {
        out.push(0u8);
        assert(out@ =~= old(out)@ + zero_bytes((i + 1) as int));
        i = i + 1;
    }
    assert(out@ =~= old(out)@ + zero_bytes(n as int));
}

/// Appends the twelve position bytes of one vertex.
fn push_vertex(out: &mut Vec<u8>, v: &Vertex)
    ensures
        final(out)@ == old(out)@ + vertex_bytes(*v),
{
    let (bx, by, bz) = pos_bits(&v.pos);
    push_le4(out, bx);
    push_le4(out, by);
    push_le4(out, bz);
    assert(out@ =~= old(out)@ + vertex_bytes(*v));
}

/// Serializes the mesh in the binary layout: an 80-byte header, a
/// little-endian 32-bit triangle count, then per triangle a 12-byte zeroed
/// normal, three positions as little-endian 32-bit floats, and a 2-byte zero
/// attribute field.  Fails exactly when the triangle count does not fit the
/// count field.
pub fn stl_bytes(vertices: &Vec<Vertex>, triangles: &Vec<Triangle>) -> (r: Result<
    Vec<u8>,
    StepError,
>)
    requires
        forall|k: int|
            0 <= k < triangles@.len() ==> tri_in_range(
                #[trigger] triangles@[k],
                vertices@.len() as int,
            ),
    ensures
        r is Ok <==> triangles@.len() <= u32::MAX,
        r matches Ok(b) ==> b@ == stl_spec(triangles@, vertices@),
        r is Err ==> r == Err::<Vec<u8>, StepError>(StepError::TooManyTriangles),
{
    if triangles.len() > (u32::MAX as usize) {
        return Err(StepError::TooManyTriangles);
    }
    let mut out: Vec<u8> = Vec::new();
    let mut i: usize = 0;
    while i < 80
        invariant
            i <= 80,
            out@ == header_bytes().take(i as int),
        decreases 80 - i,
    {
        out.push(120u8);
        assert(out@ =~= header_bytes().take((i + 1) as int));
        i = i + 1;
    }
    assert(out@ =~= header_bytes());
    push_le4(&mut out, triangles.len() as u32);
    let ghost prefix = out@;
    let mut k: usize = 0;
    while k < triangles.len()
        invariant
            k <= triangles@.len(),
            prefix == header_bytes() + le4(triangles@.len() as u32),
            out@ == prefix + body_bytes(triangles@.take(k as int), vertices@),
            forall|j: int|
                0 <= j < triangles@.len() ==> tri_in_range(
                    #[trigger] triangles@[j],
                    vertices@.len() as int,
                ),
        decreases triangles@.len() - k,
    {
        let ghost out0 = out@;
        let t = triangles[k];
        assert(tri_in_range(t, vertices@.len() as int));
        push_zeros(&mut out, 12);
        push_vertex(&mut out, &vertices[t.verts[0] as usize]);
        push_vertex(&mut out, &vertices[t.verts[1] as usize]);
        push_vertex(&mut out, &vertices[t.verts[2] as usize]);
        push_zeros(&mut out, 2);
        proof {
            assert(out@ =~= out0 + tri_bytes(t, vertices@));
            assert(triangles@.take((k + 1) as int).drop_last() =~= triangles@.take(k as int));
            assert(triangles@.take((k + 1) as int).last() == t);
            assert(out@ =~= prefix + body_bytes(triangles@.take((k + 1) as int), vertices@));
        }
        k = k + 1;
    }
    proof {
        assert(triangles@.take(triangles@.len() as int) =~= triangles@);
    }
    Ok(out)
}

} // verus!
