//! The quad that carries a sprite, and the layout of its vertices in memory.
//!
//! Coordinates are held as integers. A position counts halves of a clip-space
//! unit, so `-1` stands for one half to the left of (or below) the centre and
//! `1` for one half to the right (or above). A texture coordinate is `0` or
//! `1`, with `(0, 0)` the image's top-left corner.

use vstd::prelude::*;

verus! {

/// One corner of the quad.
#[derive(Clone, Copy, Debug, PartialEq, Eq, Structural)]
pub struct Vertex {
    /// Horizontal position, in halves of a unit.
    pub x: i32,
    /// Vertical position, in halves of a unit, upwards.
    pub y: i32,
    /// Horizontal texture coordinate.
    pub u: u32,
    /// Vertical texture coordinate, downwards.
    pub v: u32,
}

/// The type of one vertex attribute.
#[derive(Clone, Copy, Debug, PartialEq, Eq, Structural)]
pub enum VertexFormat {
    Float32,
    Float32x2,
    Float32x3,
    Float32x4,
}

/// Whether a vertex buffer advances per vertex or per instance.
#[derive(Clone, Copy, Debug, PartialEq, Eq, Structural)]
pub enum StepMode {
    Vertex,
    Instance,
}

/// One attribute of a vertex as the vertex shader receives it.
#[derive(Clone, Copy, Debug, PartialEq, Eq, Structural)]
pub struct VertexAttribute {
    pub offset: u64,
    pub shader_location: u32,
    pub format: VertexFormat,
}

/// How the vertices lie in their buffer.
#[derive(Clone, Debug)]
pub struct VertexLayout {
    pub array_stride: u64,
    pub step_mode: StepMode,
    pub attributes: Vec<VertexAttribute>,
}

/// What a buffer may be used for.
#[derive(Clone, Copy, Debug, PartialEq, Eq, Structural)]
pub struct BufferUsage {
    pub map_read: bool,
    pub map_write: bool,
    pub copy_src: bool,
    pub copy_dst: bool,
    pub index: bool,
    pub vertex: bool,
    pub uniform: bool,
    pub storage: bool,
    pub indirect: bool,
}

/// The number of vertices of the quad.
pub const QUAD_VERTEX_COUNT: u32 = 4;

/// The size of one vertex in bytes: two 32-bit floats of position and two of
/// texture coordinate.
pub const VERTEX_SIZE: u64 = 16;

impl VertexFormat {
    /// The size of an attribute of this format, in bytes.
    pub open spec fn size(self) -> int {
        match self {
            VertexFormat::Float32 => 4,
            VertexFormat::Float32x2 => 8,
            VertexFormat::Float32x3 => 12,
            VertexFormat::Float32x4 => 16,
        }
    }

    pub fn byte_size(&self) -> (r: u64)
        ensures
            r == self.size(),
    {
        match self {
            VertexFormat::Float32 => 4,
            VertexFormat::Float32x2 => 8,
            VertexFormat::Float32x3 => 12,
            VertexFormat::Float32x4 => 16,
        }
    }
}

/// The four corners of the quad in drawing order: bottom-left, bottom-right,
/// top-right, top-left.
pub open spec fn quad() -> Seq<Vertex> {
    seq![
        Vertex { x: -1i32, y: -1i32, u: 0, v: 1 },
        Vertex { x: 1, y: -1i32, u: 1, v: 1 },
        Vertex { x: 1, y: 1, u: 1, v: 0 },
        Vertex { x: -1i32, y: 1, u: 0, v: 0 },
    ]
}

/// The attributes of the quad's vertices: position at location 0, texture
/// coordinate at location 1.
pub open spec fn quad_attributes() -> Seq<VertexAttribute> {
    seq![
        VertexAttribute { offset: 0, shader_location: 0, format: VertexFormat::Float32x2 },
        VertexAttribute { offset: 8, shader_location: 1, format: VertexFormat::Float32x2 },
    ]
}

/// The usage of the quad's buffer: a source of vertices and nothing else, so
/// that it is never written after its creation.
pub open spec fn vertex_only() -> BufferUsage {
    BufferUsage {
        map_read: false,
        map_write: false,
        copy_src: false,
        copy_dst: false,
        index: false,
        vertex: true,
        uniform: false,
        storage: false,
        indirect: false,
    }
}

/// The bytes that the first `n` attributes take when nothing lies between
/// them.
pub open spec fn packed_size(attributes: Seq<VertexAttribute>, n: int) -> int
    decreases n,
{
    if n <= 0 {
        0
    } else {
        packed_size(attributes, n - 1) + attributes[n - 1].format.size()
    }
}

/// Whether the attributes follow each other without gaps and fill the stride.
pub open spec fn tightly_packed(array_stride: u64, attributes: Seq<VertexAttribute>) -> bool {
    &&& forall|i: int|
        0 <= i < attributes.len() ==> #[trigger] attributes[i].offset == packed_size(attributes, i)
    &&& array_stride == packed_size(attributes, attributes.len() as int)
}

/// Twice the signed area of the triangle `a`, `b`, `c`, in squared halves of
/// a unit: positive where the corners run counter-clockwise.
pub open spec fn doubled_area(a: Vertex, b: Vertex, c: Vertex) -> int {
    (b.x - a.x) * (c.y - a.y) - (c.x - a.x) * (b.y - a.y)
}

/// The corners of the `i`-th triangle of a strip, in the order that decides
/// its facing: every second triangle takes its last two corners in reverse.
pub open spec fn strip_triangle(vertices: Seq<Vertex>, i: int) -> (Vertex, Vertex, Vertex)
    recommends
        0 <= i,
        i + 2 < vertices.len(),
{
    if i % 2 == 0 {
        (vertices[i], vertices[i + 1], vertices[i + 2])
    } else {
        (vertices[i], vertices[i + 2], vertices[i + 1])
    }
}

/// Twice the signed area of the `i`-th triangle of a strip.
pub open spec fn strip_doubled_area(vertices: Seq<Vertex>, i: int) -> int {
    let t = strip_triangle(vertices, i);
    doubled_area(t.0, t.1, t.2)
}

/// Whether a vertex lies on a corner of the square of side one about the
/// centre.
pub open spec fn on_corner(p: Vertex) -> bool {
    (p.x == -1 || p.x == 1) && (p.y == -1 || p.y == 1)
}

/// Whether a vertex carries the texture coordinate of its own place: the
/// left edge of the image at the left, the top edge at the top.
pub open spec fn upright(p: Vertex) -> bool {
    2 * p.u == p.x + 1 && 2 * p.v == 1 - p.y
}

/// The quad's vertices, in drawing order.
pub fn quad_vertices() -> (r: Vec<Vertex>)
    ensures
        r@ == quad(),
        r@.len() == QUAD_VERTEX_COUNT,
{
    let r = vec![
        Vertex { x: -1i32, y: -1i32, u: 0, v: 1 },
        Vertex { x: 1, y: -1i32, u: 1, v: 1 },
        Vertex { x: 1, y: 1, u: 1, v: 0 },
        Vertex { x: -1i32, y: 1, u: 0, v: 0 },
    ];
    assert(r@ =~= quad());
    r
}

/// The usage of the quad's vertex buffer.
pub fn vertex_buffer_usage() -> (r: BufferUsage)
    ensures
        r == vertex_only(),
{
    BufferUsage {
        map_read: false,
        map_write: false,
        copy_src: false,
        copy_dst: false,
        index: false,
        vertex: true,
        uniform: false,
        storage: false,
        indirect: false,
    }
}

/// The layout of the quad's vertex buffer.
pub fn vertex_layout() -> (r: VertexLayout)
    ensures
        r.array_stride == VERTEX_SIZE,
        r.step_mode == StepMode::Vertex,
        r.attributes@ == quad_attributes(),
        tightly_packed(r.array_stride, r.attributes@),
{
    let attributes = vec![
        VertexAttribute { offset: 0, shader_location: 0, format: VertexFormat::Float32x2 },
        VertexAttribute { offset: 8, shader_location: 1, format: VertexFormat::Float32x2 },
    ];
    assert(attributes@ =~= quad_attributes());
    proof {
        lemma_quad_layout_packed();
    }
    VertexLayout { array_stride: VERTEX_SIZE, step_mode: StepMode::Vertex, attributes }
}

/// The quad's attributes lie tightly packed in a stride of one vertex.
pub proof fn lemma_quad_layout_packed()
    ensures
        tightly_packed(VERTEX_SIZE, quad_attributes()),
{
    let a = quad_attributes();
    reveal_with_fuel(packed_size, 3);
    assert(packed_size(a, 0) == 0);
    assert(packed_size(a, 1) == 8);
    assert(packed_size(a, 2) == 16);
}

/// The quad's corners are the four corners of the square of side one about
/// the centre, each named once, and each carries the texture coordinate of
/// the same corner of the image: left is left and top is top.
pub proof fn lemma_quad_is_upright_square()
    ensures
        quad().len() == 4,
        forall|i: int|
            0 <= i < 4 ==> on_corner(#[trigger] quad()[i]) && upright(quad()[i]),
        forall|i: int, j: int|
            0 <= i < j < 4 ==> (#[trigger] quad()[i]).x != (#[trigger] quad()[j]).x
                || quad()[i].y != quad()[j].y,
{
}

/// Of the two triangles that a strip makes of the quad, the first runs
/// counter-clockwise and covers half the square; the second runs clockwise.
pub proof fn lemma_quad_strip_winding()
    ensures
        strip_doubled_area(quad(), 0) == 4,
        strip_doubled_area(quad(), 1) == -4,
{
    let q = quad();
    assert(strip_triangle(q, 0) == (q[0], q[1], q[2]));
    assert(strip_triangle(q, 1) == (q[1], q[3], q[2]));
    assert(doubled_area(q[0], q[1], q[2]) == 2 * 2 - 2 * 0);
    assert(doubled_area(q[1], q[3], q[2]) == (-2) * 2 - 0 * 2);
}

} // verus!
