//! Thread-owned, fixed-capacity triangle accumulation batches.
//!
//! A batch holds the per-vertex attribute components of up to
//! [`TRIANGLE_ARRAY_SIZE`](crate::layout::TRIANGLE_ARRAY_SIZE) triangles in a
//! flat buffer, together with a write index counting the complete triangles
//! written so far. Components are `u32` bit patterns of the single-precision
//! values the backends eventually hand to the device: this module indexes and
//! moves them and never computes with the numeric values.

use vstd::prelude::*;

use crate::layout::PrimitiveType;
use crate::layout::TRIANGLE_ARRAY_SIZE;
use crate::layout::TRIANGLE_MAX_TOTAL_COMPONENTS;
use crate::layout::VertexArrayType;
use crate::layout::spec_triangle_stride;

verus! {

/// Three vertex attribute components, as bit patterns.
#[derive(Clone, Copy, PartialEq, Eq, Structural, Debug)]
pub struct Vec3Bits {
    pub x: u32,
    pub y: u32,
    pub z: u32,
}

/// Two vertex attribute components, as bit patterns.
#[derive(Clone, Copy, PartialEq, Eq, Structural, Debug)]
pub struct Vec2Bits {
    pub x: u32,
    pub y: u32,
}

/// One thread's accumulation batch for one vertex-layout variant.
pub struct ThreadData {
    /// The worker thread that owns this batch.
    pub thr: usize,
    /// The layout variant of the accumulated vertices.
    pub vertex_array_type: VertexArrayType,
    /// Number of complete triangles written since the last flush.
    pub index: usize,
    /// How a draw call interprets the accumulated vertices.
    pub primitive: PrimitiveType,
    /// Whether this batch is the owning thread's final flush of the frame.
    pub finished: bool,
    /// Flat component buffer, sized for the widest layout.
    pub data: Vec<u32>,
}

impl ThreadData {
    /// The batch invariant: the write index never passes the capacity and
    /// the flat buffer always has room for a full batch of the widest layout.
    pub open spec fn wf(self) -> bool {
        &&& self.index <= TRIANGLE_ARRAY_SIZE
        &&& self.data@.len() == TRIANGLE_MAX_TOTAL_COMPONENTS
    }

    /// Offset at which the next triangle's components are written.
    pub open spec fn spec_write_offset(self) -> int {
        self.index * spec_triangle_stride(self.vertex_array_type)
    }

    /// A fresh, zero-filled batch for the given thread.
    pub fn new(thr: usize) -> (td: ThreadData)
        ensures
            td.wf(),
            td.thr == thr,
            td.vertex_array_type == VertexArrayType::F3F3F3,
            td.index == 0,
            td.primitive == PrimitiveType::PrimitiveTriangles,
            !td.finished,
            forall|j: int| 0 <= j < td.data@.len() ==> td.data@[j] == 0u32,
    {
        let mut data: Vec<u32> = Vec::with_capacity(TRIANGLE_MAX_TOTAL_COMPONENTS);
        let mut i: usize = 0;
        while i < TRIANGLE_MAX_TOTAL_COMPONENTS
            invariant
                i <= TRIANGLE_MAX_TOTAL_COMPONENTS,
                data@.len() == i,
                forall|j: int| 0 <= j < i ==> data@[j] == 0u32,
            decreases TRIANGLE_MAX_TOTAL_COMPONENTS - i,
        {
            data.push(0u32);
            i = i + 1;
        }
        ThreadData {
            thr,
            vertex_array_type: VertexArrayType::F3F3F3,
            index: 0,
            primitive: PrimitiveType::PrimitiveTriangles,
            finished: false,
            data,
        }
    }

    /// A deep copy of the batch, including the whole component buffer. Used
    /// to hand a full batch across the thread boundary in immediate mode.
    pub fn duplicate(&self) -> (td: ThreadData)
        ensures
            td.thr == self.thr,
            td.vertex_array_type == self.vertex_array_type,
            td.index == self.index,
            td.primitive == self.primitive,
            td.finished == self.finished,
            td.data@ == self.data@,
    {
        let mut data: Vec<u32> = Vec::with_capacity(self.data.len());
        let mut i: usize = 0;
        while i < self.data.len()
            invariant
                i <= self.data@.len(),
                data@.len() == i,
                forall|j: int| 0 <= j < i ==> data@[j] == self.data@[j],
            decreases self.data@.len() - i,
        {
            data.push(self.data[i]);
            i = i + 1;
        }
        assert(data@ =~= self.data@);
        ThreadData {
            thr: self.thr,
            vertex_array_type: self.vertex_array_type,
            index: self.index,
            primitive: self.primitive,
            finished: self.finished,
            data,
        }
    }

    /// Write one triangle's worth of normal vectors, with no flush check.
    ///
    /// This is the Normals-only layout: three components per vertex. The
    /// caller must already have made room via the flush check; staying under
    /// capacity is a precondition, not a runtime branch.
    pub fn add_triangle_st_n3(&mut self, n1: &Vec3Bits, n2: &Vec3Bits, n3: &Vec3Bits)
        requires
            old(self).wf(),
            old(self).index < TRIANGLE_ARRAY_SIZE,
            old(self).vertex_array_type == VertexArrayType::F3,
        ensures
            final(self).wf(),
            final(self).thr == old(self).thr,
            final(self).vertex_array_type == old(self).vertex_array_type,
            final(self).primitive == old(self).primitive,
            final(self).finished == old(self).finished,
            final(self).index == old(self).index + 1,
            final(self).data@.len() == old(self).data@.len(),
            ({
                let i = old(self).spec_write_offset();
                &&& final(self).data@[i + 0] == n1.x
                &&& final(self).data@[i + 1] == n1.y
                &&& final(self).data@[i + 2] == n1.z
                &&& final(self).data@[i + 3] == n2.x
                &&& final(self).data@[i + 4] == n2.y
                &&& final(self).data@[i + 5] == n2.z
                &&& final(self).data@[i + 6] == n3.x
                &&& final(self).data@[i + 7] == n3.y
                &&& final(self).data@[i + 8] == n3.z
                &&& forall|j: int|
                    0 <= j < final(self).data@.len() && !(i <= j < i + 9) ==> final(self).data@[j] == old(self).data@[j]
            }),
    {
        let cpv = VertexArrayType::components_per_vertex(self.vertex_array_type);
        assert(cpv == 3);
        let i = self.index * cpv * 3;
        assert(i == old(self).index * 9);
        assert(spec_triangle_stride(old(self).vertex_array_type) == 9);
        assert(i == old(self).spec_write_offset());
        assert(i + 9 <= self.data@.len());
        self.data.set(i + 0, n1.x);
        self.data.set(i + 1, n1.y);
        self.data.set(i + 2, n1.z);
        self.data.set(i + 3, n2.x);
        self.data.set(i + 4, n2.y);
        self.data.set(i + 5, n2.z);
        self.data.set(i + 6, n3.x);
        self.data.set(i + 7, n3.y);
        self.data.set(i + 8, n3.z);
        self.index = self.index + 1;
    }

    /// Write one triangle of positions, normals and colours, with no flush
    /// check: nine components per vertex.
    #[verifier::rlimit(60)]
    pub fn add_triangle_st_f3f3f3(
        &mut self,
        v1: &Vec3Bits,
        n1: &Vec3Bits,
        c1: &Vec3Bits,
        v2: &Vec3Bits,
        n2: &Vec3Bits,
        c2: &Vec3Bits,
        v3: &Vec3Bits,
        n3: &Vec3Bits,
        c3: &Vec3Bits,
    )
        requires
            old(self).wf(),
            old(self).index < TRIANGLE_ARRAY_SIZE,
            old(self).vertex_array_type == VertexArrayType::F3F3F3,
        ensures
            final(self).wf(),
            final(self).thr == old(self).thr,
            final(self).vertex_array_type == old(self).vertex_array_type,
            final(self).primitive == old(self).primitive,
            final(self).finished == old(self).finished,
            final(self).index == old(self).index + 1,
            final(self).data@.len() == old(self).data@.len(),
            ({
                let i = old(self).spec_write_offset();
                &&& final(self).data@[i + 0] == v1.x
                &&& final(self).data@[i + 1] == v1.y
                &&& final(self).data@[i + 2] == v1.z
                &&& final(self).data@[i + 3] == n1.x
                &&& final(self).data@[i + 4] == n1.y
                &&& final(self).data@[i + 5] == n1.z
                &&& final(self).data@[i + 6] == c1.x
                &&& final(self).data@[i + 7] == c1.y
                &&& final(self).data@[i + 8] == c1.z
                &&& final(self).data@[i + 9] == v2.x
                &&& final(self).data@[i + 10] == v2.y
                &&& final(self).data@[i + 11] == v2.z
                &&& final(self).data@[i + 12] == n2.x
                &&& final(self).data@[i + 13] == n2.y
                &&& final(self).data@[i + 14] == n2.z
                &&& final(self).data@[i + 15] == c2.x
                &&& final(self).data@[i + 16] == c2.y
                &&& final(self).data@[i + 17] == c2.z
                &&& final(self).data@[i + 18] == v3.x
                &&& final(self).data@[i + 19] == v3.y
                &&& final(self).data@[i + 20] == v3.z
                &&& final(self).data@[i + 21] == n3.x
                &&& final(self).data@[i + 22] == n3.y
                &&& final(self).data@[i + 23] == n3.z
                &&& final(self).data@[i + 24] == c3.x
                &&& final(self).data@[i + 25] == c3.y
                &&& final(self).data@[i + 26] == c3.z
                &&& forall|j: int|
                    0 <= j < final(self).data@.len() && !(i <= j < i + 27) ==> final(self).data@[j] == old(self).data@[j]
            }),
    {
        let cpv = VertexArrayType::components_per_vertex(self.vertex_array_type);
        assert(cpv == 9);
        let i = self.index * cpv * 3;
        assert(i == old(self).index * 27);
        assert(i == old(self).spec_write_offset());
        assert(i + 27 <= self.data@.len());
        self.data.set(i + 0, v1.x);
        self.data.set(i + 1, v1.y);
        self.data.set(i + 2, v1.z);
        self.data.set(i + 3, n1.x);
        self.data.set(i + 4, n1.y);
        self.data.set(i + 5, n1.z);
        self.data.set(i + 6, c1.x);
        self.data.set(i + 7, c1.y);
        self.data.set(i + 8, c1.z);
        self.data.set(i + 9, v2.x);
        self.data.set(i + 10, v2.y);
        self.data.set(i + 11, v2.z);
        self.data.set(i + 12, n2.x);
        self.data.set(i + 13, n2.y);
        self.data.set(i + 14, n2.z);
        self.data.set(i + 15, c2.x);
        self.data.set(i + 16, c2.y);
        self.data.set(i + 17, c2.z);
        self.data.set(i + 18, v3.x);
        self.data.set(i + 19, v3.y);
        self.data.set(i + 20, v3.z);
        self.data.set(i + 21, n3.x);
        self.data.set(i + 22, n3.y);
        self.data.set(i + 23, n3.z);
        self.data.set(i + 24, c3.x);
        self.data.set(i + 25, c3.y);
        self.data.set(i + 26, c3.z);
        self.index = self.index + 1;
    }

    /// Write one triangle of positions and normals, with no flush check:
    /// six components per vertex.
    #[verifier::rlimit(60)]
    pub fn add_triangle_st_f3f3(
        &mut self,
        v1: &Vec3Bits,
        n1: &Vec3Bits,
        v2: &Vec3Bits,
        n2: &Vec3Bits,
        v3: &Vec3Bits,
        n3: &Vec3Bits,
    )
        requires
            old(self).wf(),
            old(self).index < TRIANGLE_ARRAY_SIZE,
            old(self).vertex_array_type == VertexArrayType::F3F3,
        ensures
            final(self).wf(),
            final(self).thr == old(self).thr,
            final(self).vertex_array_type == old(self).vertex_array_type,
            final(self).primitive == old(self).primitive,
            final(self).finished == old(self).finished,
            final(self).index == old(self).index + 1,
            final(self).data@.len() == old(self).data@.len(),
            ({
                let i = old(self).spec_write_offset();
                &&& final(self).data@[i + 0] == v1.x
                &&& final(self).data@[i + 1] == v1.y
                &&& final(self).data@[i + 2] == v1.z
                &&& final(self).data@[i + 3] == n1.x
                &&& final(self).data@[i + 4] == n1.y
                &&& final(self).data@[i + 5] == n1.z
                &&& final(self).data@[i + 6] == v2.x
                &&& final(self).data@[i + 7] == v2.y
                &&& final(self).data@[i + 8] == v2.z
                &&& final(self).data@[i + 9] == n2.x
                &&& final(self).data@[i + 10] == n2.y
                &&& final(self).data@[i + 11] == n2.z
                &&& final(self).data@[i + 12] == v3.x
                &&& final(self).data@[i + 13] == v3.y
                &&& final(self).data@[i + 14] == v3.z
                &&& final(self).data@[i + 15] == n3.x
                &&& final(self).data@[i + 16] == n3.y
                &&& final(self).data@[i + 17] == n3.z
                &&& forall|j: int|
                    0 <= j < final(self).data@.len() && !(i <= j < i + 18) ==> final(self).data@[j] == old(self).data@[j]
            }),
    {
        let cpv = VertexArrayType::components_per_vertex(self.vertex_array_type);
        assert(cpv == 6);
        let i = self.index * cpv * 3;
        assert(i == old(self).index * 18);
        assert(i == old(self).spec_write_offset());
        assert(i + 18 <= self.data@.len());
        self.data.set(i + 0, v1.x);
        self.data.set(i + 1, v1.y);
        self.data.set(i + 2, v1.z);
        self.data.set(i + 3, n1.x);
        self.data.set(i + 4, n1.y);
        self.data.set(i + 5, n1.z);
        self.data.set(i + 6, v2.x);
        self.data.set(i + 7, v2.y);
        self.data.set(i + 8, v2.z);
        self.data.set(i + 9, n2.x);
        self.data.set(i + 10, n2.y);
        self.data.set(i + 11, n2.z);
        self.data.set(i + 12, v3.x);
        self.data.set(i + 13, v3.y);
        self.data.set(i + 14, v3.z);
        self.data.set(i + 15, n3.x);
        self.data.set(i + 16, n3.y);
        self.data.set(i + 17, n3.z);
        self.index = self.index + 1;
    }

    /// Write one triangle of positions and texture coordinates, with no
    /// flush check: four components per vertex.
    pub fn add_triangle_st_f2f2(
        &mut self,
        v1: &Vec2Bits,
        t1: &Vec2Bits,
        v2: &Vec2Bits,
        t2: &Vec2Bits,
        v3: &Vec2Bits,
        t3: &Vec2Bits,
    )
        requires
            old(self).wf(),
            old(self).index < TRIANGLE_ARRAY_SIZE,
            old(self).vertex_array_type == VertexArrayType::F2F2,
        ensures
            final(self).wf(),
            final(self).thr == old(self).thr,
            final(self).vertex_array_type == old(self).vertex_array_type,
            final(self).primitive == old(self).primitive,
            final(self).finished == old(self).finished,
            final(self).index == old(self).index + 1,
            final(self).data@.len() == old(self).data@.len(),
            ({
                let i = old(self).spec_write_offset();
                &&& final(self).data@[i + 0] == v1.x
                &&& final(self).data@[i + 1] == v1.y
                &&& final(self).data@[i + 2] == t1.x
                &&& final(self).data@[i + 3] == t1.y
                &&& final(self).data@[i + 4] == v2.x
                &&& final(self).data@[i + 5] == v2.y
                &&& final(self).data@[i + 6] == t2.x
                &&& final(self).data@[i + 7] == t2.y
                &&& final(self).data@[i + 8] == v3.x
                &&& final(self).data@[i + 9] == v3.y
                &&& final(self).data@[i + 10] == t3.x
                &&& final(self).data@[i + 11] == t3.y
                &&& forall|j: int|
                    0 <= j < final(self).data@.len() && !(i <= j < i + 12) ==> final(self).data@[j] == old(self).data@[j]
            }),
    {
        let cpv = VertexArrayType::components_per_vertex(self.vertex_array_type);
        assert(cpv == 4);
        let i = self.index * cpv * 3;
        assert(i == old(self).index * 12);
        assert(i == old(self).spec_write_offset());
        assert(i + 12 <= self.data@.len());
        self.data.set(i + 0, v1.x);
        self.data.set(i + 1, v1.y);
        self.data.set(i + 2, t1.x);
        self.data.set(i + 3, t1.y);
        self.data.set(i + 4, v2.x);
        self.data.set(i + 5, v2.y);
        self.data.set(i + 6, t2.x);
        self.data.set(i + 7, t2.y);
        self.data.set(i + 8, v3.x);
        self.data.set(i + 9, v3.y);
        self.data.set(i + 10, t3.x);
        self.data.set(i + 11, t3.y);
        self.index = self.index + 1;
    }
}

/// One fresh batch per worker thread, each owned by its thread for a frame.
pub fn create_threaddata_objects(max_threads: usize) -> (batches: Vec<ThreadData>)
    ensures
        batches@.len() == max_threads,
        forall|t: int|
            0 <= t < max_threads ==> {
                &&& (#[trigger] batches@[t]).wf()
                &&& batches@[t].thr == t
                &&& batches@[t].index == 0
                &&& !batches@[t].finished
            },
{
    let mut batches: Vec<ThreadData> = Vec::with_capacity(max_threads);
    let mut thr: usize = 0;
    while thr < max_threads
        invariant
            thr <= max_threads,
            batches@.len() == thr,
            forall|t: int|
                0 <= t < thr ==> {
                    &&& (#[trigger] batches@[t]).wf()
                    &&& batches@[t].thr == t
                    &&& batches@[t].index == 0
                    &&& !batches@[t].finished
                },
        decreases max_threads - thr,
    {
        batches.push(ThreadData::new(thr));
        thr = thr + 1;
    }
    batches
}

} // verus!
