//! Vertex-layout variants, primitive topology and the batch geometry
//! constants shared by both backends.

use vstd::prelude::*;

verus! {

/// Maximum number of triangles a batch accumulates before it must be flushed.
pub const TRIANGLE_ARRAY_SIZE: usize = 512;

/// Components of one vertex in the widest layout: 3 attributes of 3 values.
pub const VERTEX_MAX_COMPONENTS: usize = 3 * 3;

/// Components of one triangle in the widest layout.
pub const TRIANGLE_MAX_COMPONENTS: usize = VERTEX_MAX_COMPONENTS * 3;

/// Length of a batch's flat component buffer, sized for the widest layout.
pub const TRIANGLE_MAX_TOTAL_COMPONENTS: usize = TRIANGLE_ARRAY_SIZE * TRIANGLE_MAX_COMPONENTS;

/// Which concrete backend a renderer is.
#[derive(Clone, Copy, PartialEq, Eq, Structural, Debug)]
pub enum RendererType {
    RendererGl,
    RendererVk,
}

/// The vertex attribute composition of a batch, which fixes the per-vertex
/// stride of its flat buffer.
#[derive(Clone, Copy, PartialEq, Eq, Structural, Debug)]
pub enum VertexArrayType {
    F3,
    F3F3F3,
    F3F3,
    F2F2,
}

/// How the accumulated vertices are interpreted by a draw call.
#[derive(Clone, Copy, PartialEq, Eq, Structural, Debug)]
pub enum PrimitiveType {
    PrimitiveTriangles,
    PrimitivePatches,
}

/// Number of distinct vertex-layout variants.
pub const NUM_VERTEX_ARRAY_TYPES: usize = 4;

/// Components each vertex of the given layout occupies in a flat buffer.
pub open spec fn spec_components_per_vertex(ty: VertexArrayType) -> int {
    match ty {
        VertexArrayType::F3 => 3,
        VertexArrayType::F3F3F3 => 9,
        VertexArrayType::F3F3 => 6,
        VertexArrayType::F2F2 => 4,
    }
}

/// Stride of one triangle in a flat buffer: three vertices per triangle.
pub open spec fn spec_triangle_stride(ty: VertexArrayType) -> int {
    3 * spec_components_per_vertex(ty)
}

/// The dense index a layout occupies in per-layout tables.
pub open spec fn spec_layout_index(ty: VertexArrayType) -> int {
    match ty {
        VertexArrayType::F3 => 0,
        VertexArrayType::F3F3F3 => 1,
        VertexArrayType::F3F3 => 2,
        VertexArrayType::F2F2 => 3,
    }
}

impl VertexArrayType {
    /// Components each vertex of the given layout occupies in a flat buffer.
    pub fn components_per_vertex(ty: VertexArrayType) -> (n: usize)
        ensures
            n == spec_components_per_vertex(ty),
    {
        match ty {
            VertexArrayType::F3 => 3,
            VertexArrayType::F3F3F3 => 9,
            VertexArrayType::F3F3 => 6,
            VertexArrayType::F2F2 => 4,
        }
    }

    /// Decode a layout from its dense index. Any other value indicates a
    /// violated invariant, so callers must rule it out.
    pub fn from_u32(ty: u32) -> (r: VertexArrayType)
        requires
            ty < 4,
        ensures
            spec_layout_index(r) == ty as int,
    {
        match ty {
            0 => VertexArrayType::F3,
            1 => VertexArrayType::F3F3F3,
            2 => VertexArrayType::F3F3,
            _ => VertexArrayType::F2F2,
        }
    }

    /// The dense index this layout occupies in per-layout tables.
    pub fn layout_index(self) -> (i: usize)
        ensures
            i == spec_layout_index(self),
            i < NUM_VERTEX_ARRAY_TYPES,
    {
        match self {
            VertexArrayType::F3 => 0,
            VertexArrayType::F3F3F3 => 1,
            VertexArrayType::F3F3 => 2,
            VertexArrayType::F2F2 => 3,
        }
    }

    /// Stride of one triangle of this layout in a flat buffer.
    pub fn triangle_stride(self) -> (n: usize)
        ensures
            n == spec_triangle_stride(self),
    {
        3 * VertexArrayType::components_per_vertex(self)
    }

    /// The byte stride of one vertex of this layout: four bytes per
    /// component.
    pub fn vertex_stride_bytes(self) -> (n: u32)
        ensures
            n == 4 * spec_components_per_vertex(self),
    {
        match self {
            VertexArrayType::F3 => 12,
            VertexArrayType::F3F3F3 => 36,
            VertexArrayType::F3F3 => 24,
            VertexArrayType::F2F2 => 16,
        }
    }

    /// The attributes of one vertex of this layout, as (location, component
    /// count, byte offset) triples; consecutive attributes are packed, so
    /// each offset is the previous attribute's end.
    pub fn vertex_attributes(self) -> (r: Vec<(u32, u32, u32)>)
        ensures
            r@ == spec_vertex_attributes(self),
    {
        let mut r: Vec<(u32, u32, u32)> = Vec::new();
        match self {
            VertexArrayType::F3 => {
                r.push((0, 3, 0));
            },
            VertexArrayType::F3F3F3 => {
                r.push((0, 3, 0));
                r.push((1, 3, 12));
                r.push((2, 3, 24));
            },
            VertexArrayType::F3F3 => {
                r.push((0, 3, 0));
                r.push((1, 3, 12));
            },
            VertexArrayType::F2F2 => {
                r.push((0, 2, 0));
                r.push((1, 2, 8));
            },
        }
        proof {
            assert(r@ =~= spec_vertex_attributes(self));
        }
        r
    }
}

/// One vertex attribute of a layout: its shader location, its number of
/// 32-bit components, and its byte offset inside the vertex.
pub open spec fn spec_vertex_attributes(ty: VertexArrayType) -> Seq<(u32, u32, u32)> {
    match ty {
        VertexArrayType::F3 => seq![(0u32, 3u32, 0u32)],
        VertexArrayType::F3F3F3 => seq![
            (0u32, 3u32, 0u32),
            (1u32, 3u32, 12u32),
            (2u32, 3u32, 24u32),
        ],
        VertexArrayType::F3F3 => seq![(0u32, 3u32, 0u32), (1u32, 3u32, 12u32)],
        VertexArrayType::F2F2 => seq![(0u32, 2u32, 0u32), (1u32, 2u32, 8u32)],
    }
}

/// Every layout's triangle stride in a batch's flat buffer is exactly three
/// vertices' worth of components: the write offset of primitive `i` is
/// `i * components_per_vertex(layout) * 3`.
pub proof fn lemma_flat_buffer_stride()
    ensures
        forall|ty: VertexArrayType|
            #[trigger] spec_triangle_stride(ty) == spec_components_per_vertex(ty) * 3,
        forall|ty: VertexArrayType| #[trigger] spec_triangle_stride(ty) <= TRIANGLE_MAX_COMPONENTS,
{
}

} // verus!
