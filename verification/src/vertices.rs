use vstd::prelude::*;

verus! {

/// Number of vertices of triangle A (three outer corners and three corners
/// of the hole), in both parts of the task.
pub const VERTEX_COUNT_A: u16 = 6;

/// Number of vertices of triangle B, in both parts of the task.
pub const VERTEX_COUNT_B: u16 = 3;

/// The index list of triangle A: the ring between the outer triangle
/// `0 1 2` and the hole `3 4 5`, cut into six triangles.
pub open spec fn spec_indices_a() -> Seq<u16> {
    seq![0, 1, 3, 1, 4, 3, 1, 2, 4, 2, 5, 4, 0, 5, 2, 0, 3, 5]
}

/// The index list of triangle B: one triangle.
pub open spec fn spec_indices_b() -> Seq<u16> {
    seq![0, 1, 2]
}

/// The index buffer of triangle A in part one of the task.
pub fn indices_a_zad1() -> (indices: Vec<u16>)
    ensures
        indices@ == spec_indices_a(),
{
    vec![0, 1, 3, 1, 4, 3, 1, 2, 4, 2, 5, 4, 0, 5, 2, 0, 3, 5]
}

/// The index buffer of triangle B in part one of the task.
pub fn indices_b_zad1() -> (indices: Vec<u16>)
    ensures
        indices@ == spec_indices_b(),
{
    vec![0, 1, 2]
}

/// The index buffer of triangle A in part two of the task.
pub fn indices_a_zad2() -> (indices: Vec<u16>)
    ensures
        indices@ == spec_indices_a(),
{
    vec![0, 1, 3, 1, 4, 3, 1, 2, 4, 2, 5, 4, 0, 5, 2, 0, 3, 5]
}

/// The index buffer of triangle B in part two of the task.
pub fn indices_b_zad2() -> (indices: Vec<u16>)
    ensures
        indices@ == spec_indices_b(),
{
    vec![0, 1, 2]
}

/// `indices` is a triangle list over `vertex_count` vertices: whole triangles,
/// every index names a vertex, and no triangle repeats a corner.
pub open spec fn is_triangle_list(indices: Seq<u16>, vertex_count: u16) -> bool {
    &&& indices.len() % 3 == 0
    &&& forall|i: int| 0 <= i < indices.len() ==> #[trigger] indices[i] < vertex_count
    &&& forall|t: int|
        0 <= t < indices.len() / 3 ==> {
            &&& #[trigger] indices[3 * t] != indices[3 * t + 1]
            &&& indices[3 * t + 1] != indices[3 * t + 2]
            &&& indices[3 * t + 2] != indices[3 * t]
        }
}

/// The `k`-th directed edge of the triangle list: triangle `k / 3` walked
/// from its corner `k % 3` to the next corner.
pub open spec fn edge(indices: Seq<u16>, k: int) -> (u16, u16) {
    let t = k / 3;
    let c = k % 3;
    (indices[3 * t + c], indices[3 * t + (c + 1) % 3])
}

/// `e` is walked by some triangle of the list.
pub open spec fn has_edge(indices: Seq<u16>, e: (u16, u16)) -> bool {
    exists|k: int| 0 <= k < indices.len() && #[trigger] edge(indices, k) == e
}

/// The edges of triangle A that lie on the border of the ring: the outer
/// triangle and the hole, walked against each other.
pub open spec fn border_a(e: (u16, u16)) -> bool {
    ||| e == (0u16, 1u16)
    ||| e == (1u16, 2u16)
    ||| e == (2u16, 0u16)
    ||| e == (4u16, 3u16)
    ||| e == (5u16, 4u16)
    ||| e == (3u16, 5u16)
}

/// Both index lists are valid triangle lists over their vertices; triangle A
/// is made of six triangles and triangle B of one.
pub proof fn lemma_meshes_are_triangle_lists()
    ensures
        is_triangle_list(spec_indices_a(), VERTEX_COUNT_A),
        is_triangle_list(spec_indices_b(), VERTEX_COUNT_B),
        spec_indices_a().len() / 3 == 6,
        spec_indices_b().len() / 3 == 1,
{
    let a = spec_indices_a();
    let b = spec_indices_b();
    assert(a.len() == 18);
    assert forall|t: int| 0 <= t < a.len() / 3 implies {
        &&& #[trigger] a[3 * t] != a[3 * t + 1]
        &&& a[3 * t + 1] != a[3 * t + 2]
        &&& a[3 * t + 2] != a[3 * t]
    } by {
        assert(0 <= t < 6);
    }
}

/// The directed edges of triangle A, in the order `edge` numbers them.
spec fn edges_a() -> Seq<(u16, u16)> {
    seq![(0u16, 1u16), (1u16, 3u16), (3u16, 0u16), (1u16, 4u16), (4u16, 3u16), (3u16, 1u16), (1u16, 2u16), (2u16, 4u16), (4u16, 1u16), (2u16, 5u16), (5u16, 4u16), (4u16, 2u16), (0u16, 5u16), (5u16, 2u16), (2u16, 0u16), (0u16, 3u16), (3u16, 5u16), (5u16, 0u16)]
}

/// Triangle A is a triangle with a triangular hole, consistently wound: no
/// directed edge is walked twice; every edge inside the ring is walked once
/// in each direction by the two triangles that share it; and the edges walked
/// in one direction only are exactly those of the outer triangle `0 1 2` and
/// of the hole `3 4 5`.
pub proof fn lemma_triangle_a_is_a_ring()
    ensures
        forall|j: int, k: int|
            0 <= j < k < spec_indices_a().len() ==> edge(spec_indices_a(), j) != edge(
                spec_indices_a(),
                k,
            ),
        forall|k: int|
            0 <= k < spec_indices_a().len() ==> (border_a(#[trigger] edge(spec_indices_a(), k))
                <==> !has_edge(
                spec_indices_a(),
                (edge(spec_indices_a(), k).1, edge(spec_indices_a(), k).0),
            )),
        forall|e: (u16, u16)| #[trigger] border_a(e) ==> has_edge(spec_indices_a(), e),
{
    let a = spec_indices_a();
    assert(a.len() == 18);
    assert(edge(a, 0) == (0u16, 1u16));
    assert(edge(a, 1) == (1u16, 3u16));
    assert(edge(a, 2) == (3u16, 0u16));
    assert(edge(a, 3) == (1u16, 4u16));
    assert(edge(a, 4) == (4u16, 3u16));
    assert(edge(a, 5) == (3u16, 1u16));
    assert(edge(a, 6) == (1u16, 2u16));
    assert(edge(a, 7) == (2u16, 4u16));
    assert(edge(a, 8) == (4u16, 1u16));
    assert(edge(a, 9) == (2u16, 5u16));
    assert(edge(a, 10) == (5u16, 4u16));
    assert(edge(a, 11) == (4u16, 2u16));
    assert(edge(a, 12) == (0u16, 5u16));
    assert(edge(a, 13) == (5u16, 2u16));
    assert(edge(a, 14) == (2u16, 0u16));
    assert(edge(a, 15) == (0u16, 3u16));
    assert(edge(a, 16) == (3u16, 5u16));
    assert(edge(a, 17) == (5u16, 0u16));
    assert forall|k: int| 0 <= k < 18 implies #[trigger] edge(a, k) == edges_a()[k] by {
        assert(0 <= k < 18);
    }
}

/// Bytes per vertex attribute: four 4-byte floating-point components.
pub const ATTRIBUTE_BYTES: u64 = 16;

/// Attributes per vertex: position, front colour and back colour.
pub const ATTRIBUTE_COUNT: u64 = 3;

/// Bytes between two consecutive vertices of a vertex buffer.
pub const VERTEX_STRIDE: u64 = ATTRIBUTE_BYTES * ATTRIBUTE_COUNT;

/// Format of a vertex attribute as the shader reads it.
#[derive(Clone, Copy, Debug, PartialEq, Eq, Structural)]
pub enum VertexFormat {
    /// Four 32-bit floats.
    Float32x4,
}

/// How the pipeline steps through a vertex buffer.
#[derive(Clone, Copy, Debug, PartialEq, Eq, Structural)]
pub enum VertexStepMode {
    /// One element per vertex.
    Vertex,
}

/// One attribute of a vertex: where it lies in the vertex and which shader
/// input receives it.
#[derive(Clone, Copy, Debug, PartialEq, Eq, Structural)]
pub struct VertexAttribute {
    pub offset: u64,
    pub shader_location: u32,
    pub format: VertexFormat,
}

/// The layout of one vertex buffer.
#[derive(Debug)]
pub struct VertexLayout {
    pub array_stride: u64,
    pub step_mode: VertexStepMode,
    pub attributes: Vec<VertexAttribute>,
}

/// Attribute `i` of a vertex: the `i`-th four-float field, read by shader
/// location `i`.
pub open spec fn attribute_at(i: int) -> VertexAttribute {
    VertexAttribute {
        offset: (i * ATTRIBUTE_BYTES) as u64,
        shader_location: i as u32,
        format: VertexFormat::Float32x4,
    }
}

/// The layout of the vertex buffers: position, front colour and back colour,
/// each four floats, at shader locations 0, 1 and 2.
pub fn vertex_layout() -> (layout: VertexLayout)
    ensures
        layout.array_stride == VERTEX_STRIDE,
        layout.step_mode == VertexStepMode::Vertex,
        layout.attributes@.len() == ATTRIBUTE_COUNT,
        forall|i: int| 0 <= i < ATTRIBUTE_COUNT ==> #[trigger] layout.attributes@[i] == attribute_at(i),
{
    let mut attributes: Vec<VertexAttribute> = Vec::new();
    let mut i: u64 = 0;
    while i < ATTRIBUTE_COUNT
        invariant
            i <= ATTRIBUTE_COUNT,
            attributes@.len() == i,
            forall|j: int| 0 <= j < i ==> #[trigger] attributes@[j] == attribute_at(j),
        decreases ATTRIBUTE_COUNT - i,
    {
        attributes.push(
            VertexAttribute {
                offset: i * ATTRIBUTE_BYTES,
                shader_location: i as u32,
                format: VertexFormat::Float32x4,
            },
        );
        i = i + 1;
    }
    VertexLayout {
        array_stride: ATTRIBUTE_BYTES * ATTRIBUTE_COUNT,
        step_mode: VertexStepMode::Vertex,
        attributes,
    }
}

/// The attributes tile the vertex: the first starts at byte 0, each next one
/// starts where the previous one ends, the last one ends at the stride, and
/// every attribute has its own shader location.
pub proof fn lemma_layout_tiles_vertex()
    ensures
        attribute_at(0).offset == 0,
        forall|i: int|
            0 <= i < ATTRIBUTE_COUNT - 1 ==> #[trigger] attribute_at(i + 1).offset
                == attribute_at(i).offset + ATTRIBUTE_BYTES,
        attribute_at(ATTRIBUTE_COUNT - 1).offset + ATTRIBUTE_BYTES == VERTEX_STRIDE,
        forall|i: int, j: int|
            0 <= i < j < ATTRIBUTE_COUNT ==> #[trigger] attribute_at(i).shader_location
                != #[trigger] attribute_at(j).shader_location,
{
}

/// The bytes of `s`, least significant byte of each element first.
pub open spec fn le_bytes(s: Seq<u16>) -> Seq<u8> {
    Seq::new(
        2 * s.len(),
        |i: int|
            if i % 2 == 0 {
                (s[i / 2] % 256) as u8
            } else {
                (s[i / 2] / 256) as u8
            },
    )
}

/// The bytes of `s`, most significant byte of each element first.
pub open spec fn be_bytes(s: Seq<u16>) -> Seq<u8> {
    Seq::new(
        2 * s.len(),
        |i: int|
            if i % 2 == 0 {
                (s[i / 2] / 256) as u8
            } else {
                (s[i / 2] % 256) as u8
            },
    )
}

/// Calls `bytemuck::cast_slice::<u16, u8>`, which reinterprets the memory of
/// the slice as bytes: each element becomes its two bytes in the byte order of
/// the machine, the same order for every element. The cast cannot fail from
/// `u16` to `u8` (no alignment or size mismatch), so it does not panic.
#[verifier::external_body]
fn index_bytes(indices: &[u16]) -> (bytes: Vec<u8>)
    ensures
        bytes@ == le_bytes(indices@) || bytes@ == be_bytes(indices@),
{
    bytemuck::cast_slice::<u16, u8>(indices).to_vec()
}

/// The contents of one index buffer and the number of indices to draw.
#[derive(Debug)]
pub struct IndexBuffer {
    pub contents: Vec<u8>,
    pub num_indices: u32,
}

/// `buf` holds exactly the list `indices`, in either byte order.
pub open spec fn holds_indices(buf: IndexBuffer, indices: Seq<u16>) -> bool {
    &&& buf.num_indices == indices.len()
    &&& (buf.contents@ == le_bytes(indices) || buf.contents@ == be_bytes(indices))
}

fn index_buffer(indices: Vec<u16>) -> (buf: IndexBuffer)
    requires
        indices@.len() <= u32::MAX,
    ensures
        holds_indices(buf, indices@),
{
    let contents = index_bytes(indices.as_slice());
    IndexBuffer { contents, num_indices: indices.len() as u32 }
}

/// The index buffers of triangles A and B for the chosen part of the task.
pub fn scene_index_buffers(config_zad1: bool) -> (bufs: (IndexBuffer, IndexBuffer))
    ensures
        holds_indices(bufs.0, spec_indices_a()),
        holds_indices(bufs.1, spec_indices_b()),
        bufs.0.num_indices == 18,
        bufs.1.num_indices == 3,
{
    if config_zad1 {
        (index_buffer(indices_a_zad1()), index_buffer(indices_b_zad1()))
    } else {
        (index_buffer(indices_a_zad2()), index_buffer(indices_b_zad2()))
    }
}

/// The bytes of an index list decode back to it: two bytes per index, and
/// in either byte order each pair of bytes is the index they encode.
pub proof fn lemma_index_bytes_decode(s: Seq<u16>)
    ensures
        le_bytes(s).len() == 2 * s.len(),
        be_bytes(s).len() == 2 * s.len(),
        forall|i: int|
            0 <= i < s.len() ==> le_bytes(s)[2 * i] + 256 * le_bytes(s)[2 * i + 1] == #[trigger] s[i],
        forall|i: int|
            0 <= i < s.len() ==> be_bytes(s)[2 * i + 1] + 256 * be_bytes(s)[2 * i] == #[trigger] s[i],
{
    assert forall|i: int| 0 <= i < s.len() implies le_bytes(s)[2 * i] + 256 * le_bytes(s)[2 * i + 1]
        == #[trigger] s[i] by {
        assert((2 * i) / 2 == i && (2 * i) % 2 == 0);
        assert((2 * i + 1) / 2 == i && (2 * i + 1) % 2 == 1);
    }
    assert forall|i: int| 0 <= i < s.len() implies be_bytes(s)[2 * i + 1] + 256 * be_bytes(s)[2 * i]
        == #[trigger] s[i] by {
        assert((2 * i) / 2 == i && (2 * i) % 2 == 0);
        assert((2 * i + 1) / 2 == i && (2 * i + 1) % 2 == 1);
    }
}

} // verus!
