//! Per-frame vertex-buffer pools of the explicit backend.
//!
//! Each (swapchain image, vertex layout, worker thread) triple addresses its
//! own growable pool of device vertex buffers and a cursor into it. A flush
//! advances the cursor, allocating a fresh buffer only when the pool is
//! exhausted; beginning a pass resets the cursors of the current image to
//! `-1`, so the first flush of the pass selects pool entry `0`. Because each
//! worker only ever touches its own slice of this state, no locking is
//! needed: the partitioning by triple is what makes the explicit path safe.
//! Device buffers themselves are opaque here and are carried as handles.

use vstd::prelude::*;
use vstd::arithmetic::mul::lemma_mul_inequality;
use vstd::arithmetic::mul::lemma_mul_is_distributive_add_other_way;
use vstd::arithmetic::mul::lemma_mul_nonnegative;
use vstd::arithmetic::div_mod::lemma_fundamental_div_mod_converse;

use crate::layout::NUM_VERTEX_ARRAY_TYPES;
use crate::layout::VertexArrayType;
use crate::layout::spec_layout_index;

verus! {

/// An opaque handle pair naming a device vertex buffer and its memory.
#[derive(Clone, Copy, PartialEq, Eq, Structural, Debug)]
pub struct BufferSlot {
    /// The device buffer handle.
    pub buffer: u64,
    /// The device memory backing the buffer.
    pub memory: u64,
}

/// The vertex-buffer pools and cursors of all (image, layout, thread)
/// triples, stored flat: triple `(g, l, t)` lives at
/// `g * layouts * threads + l * threads + t`.
pub struct VertexBufferPools {
    /// Number of swapchain images (frames in flight).
    pub images: usize,
    /// Number of worker threads.
    pub threads: usize,
    /// Per-triple cursor: index of the pool entry the last flush of the
    /// current pass used, `-1` before the first flush of the pass, or the
    /// pool length while a freshly advanced triple still owes an allocation.
    pub cursors: Vec<i32>,
    /// Per-triple growable pool of device buffers.
    pub pools: Vec<Vec<BufferSlot>>,
}

impl VertexBufferPools {
    /// The flat index of the (image, layout, thread) triple.
    pub open spec fn spec_slot(self, image: int, layout: VertexArrayType, thr: int) -> int {
        image * (NUM_VERTEX_ARRAY_TYPES * self.threads) + spec_layout_index(layout) * self.threads
            + thr
    }

    /// The pool invariant: one cursor and one pool per triple, every cursor
    /// between `-1` and its pool's length, and every pool small enough for
    /// its entries to be addressed by an `i32` cursor.
    pub open spec fn wf(self) -> bool {
        &&& self.cursors@.len() == self.images * (NUM_VERTEX_ARRAY_TYPES * self.threads)
        &&& self.pools@.len() == self.cursors@.len()
        &&& forall|k: int|
            0 <= k < self.cursors@.len() ==> -1 <= #[trigger] self.cursors@[k]
                <= self.pools@[k]@.len()
        &&& forall|k: int|
            0 <= k < self.pools@.len() ==> (#[trigger] self.pools@[k])@.len() + 1 < i32::MAX
    }

    /// Whether no triple is mid-flush: every cursor strictly inside its pool
    /// or at `-1`, so no allocation is owed anywhere.
    pub open spec fn settled(self) -> bool {
        forall|k: int|
            0 <= k < self.cursors@.len() ==> #[trigger] self.cursors@[k] < self.pools@[k]@.len()
    }

    /// Empty pools for the given frame and thread counts: every cursor at
    /// `-1`, every pool empty.
    pub fn new(images: usize, threads: usize) -> (p: VertexBufferPools)
        requires
            NUM_VERTEX_ARRAY_TYPES * threads <= usize::MAX,
            images * (NUM_VERTEX_ARRAY_TYPES * threads) <= usize::MAX,
        ensures
            p.wf(),
            p.settled(),
            p.images == images,
            p.threads == threads,
            forall|k: int| 0 <= k < p.cursors@.len() ==> #[trigger] p.cursors@[k] == -1,
            forall|k: int| 0 <= k < p.pools@.len() ==> (#[trigger] p.pools@[k])@.len() == 0,
    {
        let inner = NUM_VERTEX_ARRAY_TYPES * threads;
        proof {
            lemma_mul_nonnegative(images as int, inner as int);
        }
        let total = images * inner;
        let mut cursors: Vec<i32> = Vec::with_capacity(total);
        let mut pools: Vec<Vec<BufferSlot>> = Vec::with_capacity(total);
        let mut k: usize = 0;
        while k < total
            invariant
                k <= total,
                cursors@.len() == k,
                pools@.len() == k,
                forall|j: int| 0 <= j < k ==> #[trigger] cursors@[j] == -1,
                forall|j: int| 0 <= j < k ==> (#[trigger] pools@[j])@.len() == 0,
            decreases total - k,
        {
            cursors.push(-1);
            pools.push(Vec::new());
            k = k + 1;
        }
        VertexBufferPools { images, threads, cursors, pools }
    }

    /// The flat index of the (image, layout, thread) triple, bounded by the
    /// table length.
    fn slot(&self, image: usize, layout: VertexArrayType, thr: usize) -> (k: usize)
        requires
            self.cursors@.len() == self.images * (NUM_VERTEX_ARRAY_TYPES * self.threads),
            image < self.images,
            thr < self.threads,
        ensures
            k == self.spec_slot(image as int, layout, thr as int),
            k < self.cursors@.len(),
    {
        let table_len = self.cursors.len();
        let l = layout.layout_index();
        proof {
            lemma_slot_in_range(
                self.images as int,
                self.threads as int,
                image as int,
                l as int,
                thr as int,
            );
            lemma_mul_nonnegative(l as int, self.threads as int);
            lemma_mul_nonnegative(image as int, NUM_VERTEX_ARRAY_TYPES * (self.threads as int));
            lemma_mul_inequality(1, self.images as int, NUM_VERTEX_ARRAY_TYPES * (self.threads as int));
            assert(1 * (NUM_VERTEX_ARRAY_TYPES * (self.threads as int)) == NUM_VERTEX_ARRAY_TYPES * (self.threads as int));
        }
        image * (NUM_VERTEX_ARRAY_TYPES * self.threads) + l * self.threads + thr
    }

    /// The cursor of a triple.
    pub fn cursor(&self, image: usize, layout: VertexArrayType, thr: usize) -> (c: i32)
        requires
            self.wf(),
            image < self.images,
            thr < self.threads,
        ensures
            c == self.cursors@[self.spec_slot(image as int, layout, thr as int)],
    {
        let k = self.slot(image, layout, thr);
        self.cursors[k]
    }

    /// The number of buffers a triple's pool holds.
    pub fn pool_len(&self, image: usize, layout: VertexArrayType, thr: usize) -> (n: usize)
        requires
            self.wf(),
            image < self.images,
            thr < self.threads,
        ensures
            n == self.pools@[self.spec_slot(image as int, layout, thr as int)]@.len(),
    {
        let k = self.slot(image, layout, thr);
        self.pools[k].len()
    }

    /// Begin-pass reset: move the cursors of every (layout, thread) pair of
    /// the given image back to `-1`, keeping every pool and every other
    /// image's cursors. The next flush of each triple then selects pool
    /// entry `0`, never a stale index from the previous pass.
    pub fn reset_pass_cursors(&mut self, image: usize)
        requires
            old(self).wf(),
            image < old(self).images,
        ensures
            final(self).wf(),
            final(self).images == old(self).images,
            final(self).threads == old(self).threads,
            final(self).pools == old(self).pools,
            final(self).cursors@.len() == old(self).cursors@.len(),
            forall|l: VertexArrayType, t: int|
                0 <= t < old(self).threads ==> final(self).cursors@[#[trigger] old(self).spec_slot(
                    image as int,
                    l,
                    t,
                )] == -1,
            forall|k: int|
                0 <= k < old(self).cursors@.len() && !(image * (NUM_VERTEX_ARRAY_TYPES * old(
                    self,
                ).threads) <= k < (image + 1) * (NUM_VERTEX_ARRAY_TYPES * old(self).threads))
                    ==> final(self).cursors@[k] == old(self).cursors@[k],
    {
        let table_len = self.cursors.len();
        proof {
            let ims = self.images as int;
            let inr = NUM_VERTEX_ARRAY_TYPES * (self.threads as int);
            lemma_mul_nonnegative(image as int, inr);
            lemma_mul_inequality(image as int + 1, ims, inr);
            lemma_mul_is_distributive_add_other_way(inr, image as int, 1);
            lemma_mul_inequality(1, ims, inr);
            assert(1 * inr == inr);
        }
        let inner = NUM_VERTEX_ARRAY_TYPES * self.threads;
        let base = image * inner;
        let mut j: usize = 0;
        while j < inner
            invariant
                self.images == old(self).images,
                self.threads == old(self).threads,
                self.pools == old(self).pools,
                self.cursors@.len() == old(self).cursors@.len(),
                old(self).wf(),
                j <= inner,
                inner == NUM_VERTEX_ARRAY_TYPES * self.threads,
                base == image * inner,
                base + inner <= self.cursors@.len(),
                base + inner <= usize::MAX,
                forall|k: int| base <= k < base + j ==> #[trigger] self.cursors@[k] == -1,
                forall|k: int|
                    0 <= k < self.cursors@.len() && !(base <= k < base + j)
                        ==> #[trigger] self.cursors@[k] == old(self).cursors@[k],
            decreases inner - j,
        {
            self.cursors.set(base + j, -1);
            j = j + 1;
        }
        proof {
            assert forall|l: VertexArrayType, t: int|
                0 <= t < old(self).threads implies self.cursors@[#[trigger] old(self).spec_slot(
                image as int,
                l,
                t,
            )] == -1 by {
                let li = spec_layout_index(l);
                let th = old(self).threads as int;
                assert(0 <= li < NUM_VERTEX_ARRAY_TYPES);
                lemma_mul_nonnegative(li, th);
                lemma_mul_inequality(li + 1, NUM_VERTEX_ARRAY_TYPES as int, th);
                lemma_mul_is_distributive_add_other_way(th, li, 1);
            }
            assert forall|k: int|
                0 <= k < self.cursors@.len() implies -1 <= #[trigger] self.cursors@[k]
                <= self.pools@[k]@.len() by {
                assert(old(self).cursors@[k] <= old(self).pools@[k]@.len());
            }
        }
    }

    /// Advance a triple's cursor to the next pool entry, as the first step of
    /// an explicit-mode flush. Returns true exactly when the pool is
    /// exhausted, in which case a fresh buffer must be allocated and pushed
    /// via `push_slot` before the entry can be used.
    pub fn advance(&mut self, image: usize, layout: VertexArrayType, thr: usize) -> (needs_new:
        bool)
        requires
            old(self).wf(),
            image < old(self).images,
            thr < old(self).threads,
            old(self).cursors@[old(self).spec_slot(image as int, layout, thr as int)] < old(
                self,
            ).pools@[old(self).spec_slot(image as int, layout, thr as int)]@.len(),
        ensures
            final(self).wf(),
            final(self).images == old(self).images,
            final(self).threads == old(self).threads,
            final(self).pools == old(self).pools,
            final(self).cursors@.len() == old(self).cursors@.len(),
            ({
                let k = old(self).spec_slot(image as int, layout, thr as int);
                &&& final(self).cursors@[k] == old(self).cursors@[k] + 1
                &&& forall|j: int|
                    0 <= j < old(self).cursors@.len() && j != k ==> final(self).cursors@[j] == old(
                        self,
                    ).cursors@[j]
                &&& needs_new == (old(self).cursors@[k] + 1 == old(self).pools@[k]@.len())
            }),
    {
        let k = self.slot(image, layout, thr);
        let c = self.cursors[k];
        let len = self.pools[k].len();
        self.cursors.set(k, c + 1);
        c + 1 == len as i32
    }

    /// Push a freshly allocated device buffer onto a triple's pool, restoring
    /// the cursor to an entry that exists after an `advance` exhausted the
    /// pool. The pool must stay addressable by its `i32` cursor.
    pub fn push_slot(&mut self, image: usize, layout: VertexArrayType, thr: usize, slot: BufferSlot)
        requires
            old(self).wf(),
            image < old(self).images,
            thr < old(self).threads,
            old(self).cursors@[old(self).spec_slot(image as int, layout, thr as int)] == old(
                self,
            ).pools@[old(self).spec_slot(image as int, layout, thr as int)]@.len(),
            old(self).pools@[old(self).spec_slot(image as int, layout, thr as int)]@.len() + 2
                < i32::MAX,
        ensures
            final(self).wf(),
            final(self).images == old(self).images,
            final(self).threads == old(self).threads,
            final(self).cursors == old(self).cursors,
            final(self).pools@.len() == old(self).pools@.len(),
            ({
                let k = old(self).spec_slot(image as int, layout, thr as int);
                &&& final(self).pools@[k]@ == old(self).pools@[k]@.push(slot)
                &&& forall|j: int|
                    0 <= j < old(self).pools@.len() && j != k ==> final(self).pools@[j] == old(
                        self,
                    ).pools@[j]
            }),
    {
        let k = self.slot(image, layout, thr);
        let mut pool = self.pools.remove(k);
        pool.push(slot);
        self.pools.insert(k, pool);
        proof {
            assert forall|j: int|
                0 <= j < self.pools@.len() && j != k implies self.pools@[j] == old(
                self,
            ).pools@[j] by {
                if j < k {
                    assert(old(self).pools@.remove(k as int)[j] == old(self).pools@[j]);
                } else {
                    assert(old(self).pools@.remove(k as int)[j - 1] == old(self).pools@[j]);
                }
            }
        }
    }

    /// The pool entry a triple's cursor currently selects: the buffer an
    /// explicit-mode flush copies its vertex data into and binds for the
    /// draw.
    pub fn current_slot(&self, image: usize, layout: VertexArrayType, thr: usize) -> (slot:
        BufferSlot)
        requires
            self.wf(),
            image < self.images,
            thr < self.threads,
            0 <= self.cursors@[self.spec_slot(image as int, layout, thr as int)],
            self.cursors@[self.spec_slot(image as int, layout, thr as int)] < self.pools@[self.spec_slot(
                image as int,
                layout,
                thr as int,
            )]@.len(),
        ensures
            ({
                let k = self.spec_slot(image as int, layout, thr as int);
                slot == self.pools@[k]@[self.cursors@[k] as int]
            }),
    {
        let k = self.slot(image, layout, thr);
        let c = self.cursors[k];
        self.pools[k][c as usize]
    }
}


/// The partitioning discipline of the explicit path: the flat index is
/// injective over in-range (image, layout, thread) triples, so each triple
/// addresses its own cursor and pool and no two workers ever touch the same
/// slice of the state.
pub proof fn lemma_slot_unique(
    p: VertexBufferPools,
    image1: int,
    layout1: VertexArrayType,
    thr1: int,
    image2: int,
    layout2: VertexArrayType,
    thr2: int,
)
    requires
        0 <= image1 < p.images,
        0 <= thr1 < p.threads,
        0 <= image2 < p.images,
        0 <= thr2 < p.threads,
        p.spec_slot(image1, layout1, thr1) == p.spec_slot(image2, layout2, thr2),
    ensures
        image1 == image2,
        layout1 == layout2,
        thr1 == thr2,
{
    lemma_slot_decomposition(p, image1, layout1, thr1);
    lemma_slot_decomposition(p, image2, layout2, thr2);
    assert(spec_layout_index(layout1) == spec_layout_index(layout2));
}

/// The flat index determines its triple: thread, layout and image are the
/// remainder and quotients of the index by the table's extents.
proof fn lemma_slot_decomposition(p: VertexBufferPools, image: int, layout: VertexArrayType, thr: int)
    requires
        0 <= image < p.images,
        0 <= thr < p.threads,
    ensures
        ({
            let th = p.threads as int;
            let k = p.spec_slot(image, layout, thr);
            &&& thr == k % th
            &&& spec_layout_index(layout) == (k / th) % (NUM_VERTEX_ARRAY_TYPES as int)
            &&& image == (k / th) / (NUM_VERTEX_ARRAY_TYPES as int)
        }),
{
    let th = p.threads as int;
    let n: int = NUM_VERTEX_ARRAY_TYPES as int;
    let l = spec_layout_index(layout);
    let k = p.spec_slot(image, layout, thr);
    assert(image * (n * th) == (image * n) * th) by (nonlinear_arith);
    lemma_mul_is_distributive_add_other_way(th, image * n, l);
    assert(k == (image * n + l) * th + thr);
    lemma_fundamental_div_mod_converse(k, th, image * n + l, thr);
    lemma_fundamental_div_mod_converse(image * n + l, n, image, l);
}

/// The flat index of any in-range triple is within the table.
proof fn lemma_slot_in_range(images: int, threads: int, image: int, l: int, thr: int)
    requires
        0 <= image < images,
        0 <= l < NUM_VERTEX_ARRAY_TYPES,
        0 <= thr < threads,
    ensures
        0 <= image * (NUM_VERTEX_ARRAY_TYPES * threads) + l * threads + thr < images
            * (NUM_VERTEX_ARRAY_TYPES * threads),
{
    let n: int = NUM_VERTEX_ARRAY_TYPES as int;
    let inner = n * threads;
    lemma_mul_nonnegative(image, inner);
    lemma_mul_nonnegative(l, threads);
    lemma_mul_inequality(image + 1, images, inner);
    lemma_mul_is_distributive_add_other_way(inner, image, 1);
    lemma_mul_inequality(l + 1, n, threads);
    lemma_mul_is_distributive_add_other_way(threads, l, 1);
}

} // verus!
