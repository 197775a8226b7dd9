//! The flush decision and the data a flush hands to a draw call.
//!
//! `checkFlush` is the sole gate through which batch capacity is enforced:
//! when forced, or when the write index has reached capacity, the batch's
//! accumulated components are turned into one draw call's worth of data and
//! the write index is reset. In the single-threaded immediate path the
//! caller issues the draw directly; in the multi-threaded immediate path the
//! worker instead hands a deep copy of the batch to the coordinator thread
//! and must not touch its own batch again until the coordinator acknowledges.

use vstd::prelude::*;

use crate::batch::ThreadData;
use crate::layout::PrimitiveType;
use crate::layout::TRIANGLE_ARRAY_SIZE;
use crate::layout::spec_triangle_stride;

verus! {

/// Everything one draw call needs: the topology, the number of complete
/// triangles, and the prefix of the flat buffer holding their components.
pub struct DrawData {
    /// How the vertices are interpreted.
    pub primitive: PrimitiveType,
    /// Number of complete triangles; the draw uses three vertices each.
    pub triangles: usize,
    /// The accumulated components, exactly `triangles` triangles' worth.
    pub components: Vec<u32>,
}

/// Whether a flush must happen now: either it is forced, or the batch has
/// reached its capacity.
pub open spec fn spec_flush_needed(force: bool, index: int) -> bool {
    force || index == TRIANGLE_ARRAY_SIZE
}

/// The prefix of the batch's flat buffer that a flush transfers: the
/// components of the `index` complete triangles written so far.
pub open spec fn spec_draw_components(td: ThreadData) -> Seq<u32> {
    td.data@.subrange(0, td.index * spec_triangle_stride(td.vertex_array_type))
}

/// What a flush hands to the draw call: nothing when no flush is needed or
/// the batch is empty, otherwise the batch's triangles.
pub open spec fn spec_flush_result(td: ThreadData, force: bool) -> Option<
    (PrimitiveType, int, Seq<u32>),
> {
    if spec_flush_needed(force, td.index as int) && td.index > 0 {
        Some((td.primitive, td.index as int, spec_draw_components(td)))
    } else {
        None
    }
}

/// The batch after a flush check: the write index is reset to zero when a
/// flush was needed, and nothing else changes.
pub open spec fn spec_flush_state(td: ThreadData, force: bool) -> ThreadData {
    if spec_flush_needed(force, td.index as int) {
        ThreadData { index: 0, ..td }
    } else {
        td
    }
}

impl ThreadData {
    /// Check whether a flush is required and, when it is, hand back the data
    /// for the draw call and reset the write index. Single-threaded
    /// immediate-mode path: the caller holds the context and issues the draw
    /// itself.
    ///
    /// An empty batch never produces a draw, and an unforced check below
    /// capacity changes nothing.
    pub fn check_flush_st(&mut self, force: bool) -> (r: Option<DrawData>)
        requires
            old(self).wf(),
        ensures
            final(self).wf(),
            *final(self) == spec_flush_state(*old(self), force),
            match r {
                None => spec_flush_result(*old(self), force) is None,
                Some(d) => spec_flush_result(*old(self), force) == Some(
                    (d.primitive, d.triangles as int, d.components@),
                ),
            },
    {
        if force || self.index == TRIANGLE_ARRAY_SIZE {
            let draw = extract_draw(self);
            self.index = 0;
            draw
        } else {
            None
        }
    }

    /// Check whether a flush is required on a worker thread in immediate
    /// mode. When it is, the write index is reset and a deep copy of the
    /// batch is handed back, marked `finished` exactly when the flush was
    /// forced; the caller sends that copy to the coordinator thread and
    /// blocks until the coordinator acknowledges the draw.
    pub fn check_flush(&mut self, force: bool) -> (r: Option<ThreadData>)
        requires
            old(self).wf(),
        ensures
            final(self).wf(),
            *final(self) == spec_flush_state(*old(self), force),
            r is Some <==> spec_flush_needed(force, old(self).index as int),
            match r {
                None => true,
                Some(td) => {
                    &&& td.wf()
                    &&& td.thr == old(self).thr
                    &&& td.vertex_array_type == old(self).vertex_array_type
                    &&& td.index == old(self).index
                    &&& td.primitive == old(self).primitive
                    &&& td.finished == force
                    &&& td.data@ == old(self).data@
                },
            },
    {
        if force || self.index == TRIANGLE_ARRAY_SIZE {
            let mut td = self.duplicate();
            td.finished = force;
            self.index = 0;
            Some(td)
        } else {
            None
        }
    }
}

/// Build the draw-call data for a batch: its triangle count and the prefix
/// of the flat buffer the triangles occupy. An empty batch draws nothing.
pub fn extract_draw(td: &ThreadData) -> (r: Option<DrawData>)
    requires
        td.wf(),
    ensures
        match r {
            None => td.index == 0,
            Some(d) => {
                &&& td.index > 0
                &&& d.primitive == td.primitive
                &&& d.triangles == td.index
                &&& d.components@ == spec_draw_components(*td)
            },
        },
{
    if td.index == 0 {
        return None;
    }
    let stride = td.vertex_array_type.triangle_stride();
    assert(td.index * stride <= TRIANGLE_ARRAY_SIZE * 27) by (nonlinear_arith)
        requires
            td.index <= TRIANGLE_ARRAY_SIZE,
            stride <= 27,
    ;
    let count = td.index * stride;
    assert(count <= td.data@.len());
    let mut components: Vec<u32> = Vec::with_capacity(count);
    let mut i: usize = 0;
    while i < count
        invariant
            i <= count,
            count <= td.data@.len(),
            components@.len() == i,
            forall|j: int| 0 <= j < i ==> components@[j] == td.data@[j],
        decreases count - i,
    {
        components.push(td.data[i]);
        i = i + 1;
    }
    assert(components@ =~= spec_draw_components(*td));
    Some(
        DrawData {
            primitive: td.primitive,
            triangles: td.index,
            components,
        },
    )
}

/// Round trip: a batch holding `N` complete triangles, flushed by force,
/// hands exactly those `N` triangles — the first `N × stride` components of
/// its buffer — to the draw call and comes back with its write index reset
/// to zero and its buffer untouched.
pub proof fn lemma_flush_round_trip(td: ThreadData)
    requires
        td.wf(),
        0 < td.index,
    ensures
        spec_flush_result(td, true) == Some(
            (td.primitive, td.index as int, spec_draw_components(td)),
        ),
        spec_draw_components(td).len() == td.index * spec_triangle_stride(td.vertex_array_type),
        spec_flush_state(td, true).index == 0,
        spec_flush_state(td, true).data == td.data,
        spec_flush_state(td, true).thr == td.thr,
        spec_flush_state(td, true).vertex_array_type == td.vertex_array_type,
{
    assert(td.index * spec_triangle_stride(td.vertex_array_type) <= TRIANGLE_ARRAY_SIZE * 27)
        by (nonlinear_arith)
        requires
            td.index <= TRIANGLE_ARRAY_SIZE,
            spec_triangle_stride(td.vertex_array_type) <= 27,
            0 < td.index,
    ;
}

/// Idempotence on an empty batch: an unforced flush check of a batch whose
/// write index is zero performs no draw and leaves the batch unchanged.
pub proof fn lemma_check_flush_empty_noop(td: ThreadData)
    requires
        td.index == 0,
    ensures
        spec_flush_result(td, false) is None,
        spec_flush_state(td, false) == td,
{
}

/// Boundary: once exactly `capacity` triangles have been appended, the very
/// next flush check triggers the capacity branch even unforced, and it
/// transfers exactly `capacity` triangles — never `capacity + 1`, since
/// appends require the index to be strictly below capacity.
pub proof fn lemma_capacity_boundary(td: ThreadData)
    requires
        td.wf(),
        td.index == TRIANGLE_ARRAY_SIZE,
    ensures
        spec_flush_needed(false, td.index as int),
        spec_flush_result(td, false) == Some(
            (td.primitive, TRIANGLE_ARRAY_SIZE as int, spec_draw_components(td)),
        ),
        spec_flush_state(td, false).index == 0,
{
}

} // verus!
