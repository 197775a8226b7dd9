//! The multi-threaded render harness's coordinator protocol.
//!
//! In immediate mode only one thread may issue draw calls, so worker threads
//! send full batches to a coordinator, which draws them in arrival order,
//! tallies the workers whose final batch has arrived, and acknowledges each
//! sender. The loop ends exactly when every worker's final batch has been
//! drawn. This module verifies the coordinator's decisions over the sequence
//! of batches it receives; the channels and threads that carry the batches
//! live outside the verified core and hand the received values in.

use vstd::prelude::*;

use crate::batch::ThreadData;
use crate::flush::DrawData;
use crate::flush::extract_draw;
use crate::flush::spec_draw_components;
use crate::layout::RendererType;
use crate::layout::TRIANGLE_ARRAY_SIZE;

verus! {

/// Number of batches in the sequence that are marked as their worker's
/// final flush of the frame.
pub open spec fn spec_count_finished(batches: Seq<ThreadData>) -> int
    decreases batches.len(),
{
    if batches.len() == 0 {
        0
    } else {
        spec_count_finished(batches.drop_last()) + if batches.last().finished {
            1int
        } else {
            0int
        }
    }
}

/// Total number of complete triangles held by the batches in the sequence.
pub open spec fn spec_sum_indices(batches: Seq<ThreadData>) -> int
    decreases batches.len(),
{
    if batches.len() == 0 {
        0
    } else {
        spec_sum_indices(batches.drop_last()) + batches.last().index
    }
}

/// The finished tally of a prefix never exceeds that of a longer prefix.
pub proof fn lemma_count_finished_monotone(batches: Seq<ThreadData>, i: int, j: int)
    requires
        0 <= i <= j <= batches.len(),
    ensures
        spec_count_finished(batches.subrange(0, i)) <= spec_count_finished(batches.subrange(0, j)),
    decreases j - i,
{
    if i < j {
        lemma_count_finished_monotone(batches, i, j - 1);
        assert(batches.subrange(0, j).drop_last() =~= batches.subrange(0, j - 1));
    }
}

/// Whether the harness must run a coordinator loop on the spawning thread:
/// only the immediate-mode backend needs one, and only with several workers.
/// In explicit mode each worker submits its own command buffer, so the
/// spawning thread just joins the workers.
pub fn needs_coordinator(renderer_type: RendererType, max_threads: usize) -> (r: bool)
    ensures
        r == (renderer_type == RendererType::RendererGl && max_threads > 1),
{
    renderer_type == RendererType::RendererGl && max_threads > 1
}

/// The coordinator's frame-progress state: how many of the frame's workers
/// have had their final batch drawn.
pub struct Coordinator {
    /// The number of worker threads producing batches this frame.
    pub max_threads: usize,
    /// Workers whose final batch has been received and drawn.
    pub threads_finished: usize,
}

impl Coordinator {
    /// The tally never passes the worker count.
    pub open spec fn wf(self) -> bool {
        self.threads_finished <= self.max_threads
    }

    /// A coordinator at the start of a frame: no worker has finished.
    pub fn new(max_threads: usize) -> (c: Coordinator)
        ensures
            c.wf(),
            c.max_threads == max_threads,
            c.threads_finished == 0,
    {
        Coordinator { max_threads, threads_finished: 0 }
    }

    /// Whether every worker's final batch has been drawn, so the receive
    /// loop may end.
    pub fn done(&self) -> (r: bool)
        ensures
            r == (self.threads_finished >= self.max_threads),
    {
        self.threads_finished >= self.max_threads
    }

    /// Handle one batch received from a worker: produce the draw for it and,
    /// when the batch is the worker's final one, count that worker as
    /// finished. The caller issues the draw and then acknowledges exactly the
    /// sending worker, which blocks until then.
    pub fn receive(&mut self, td: &ThreadData) -> (r: Option<DrawData>)
        requires
            old(self).wf(),
            old(self).threads_finished < old(self).max_threads,
            td.wf(),
        ensures
            final(self).wf(),
            final(self).max_threads == old(self).max_threads,
            final(self).threads_finished == old(self).threads_finished + if td.finished {
                1int
            } else {
                0int
            },
            match r {
                None => td.index == 0,
                Some(d) => {
                    &&& td.index > 0
                    &&& d.primitive == td.primitive
                    &&& d.triangles == td.index
                    &&& d.components@ == spec_draw_components(*td)
                },
            },
    {
        let draw = extract_draw(td);
        if td.finished {
            self.threads_finished = self.threads_finished + 1;
        }
        draw
    }
}

/// Run the coordinator loop over the batches received from the workers, in
/// arrival order, until every worker's final batch has been drawn.
///
/// Returns the finished tally at exit — always exactly the worker count —
/// and the total number of triangles drawn, which is exactly the number of
/// triangles the workers sent: none lost, none duplicated.
///
/// The preconditions state the harness protocol: every worker marks its last
/// batch of the frame as finished, so the received sequence holds exactly
/// `max_threads` finished batches, and nothing arrives after the last of
/// them.
pub fn run_coordinator(batches: &Vec<ThreadData>, max_threads: usize) -> (r: (usize, usize))
    requires
        max_threads > 0,
        forall|i: int| 0 <= i < batches@.len() ==> (#[trigger] batches@[i]).wf(),
        spec_count_finished(batches@) == max_threads,
        batches@.len() > 0 ==> spec_count_finished(batches@.subrange(0, batches@.len() - 1))
            < max_threads,
        batches@.len() * TRIANGLE_ARRAY_SIZE <= usize::MAX,
    ensures
        r.0 == max_threads,
        r.1 == spec_sum_indices(batches@),
{
    let mut coordinator = Coordinator::new(max_threads);
    let mut drawn: usize = 0;
    let mut i: usize = 0;
    while !coordinator.done()
        invariant
            coordinator.wf(),
            coordinator.max_threads == max_threads,
            max_threads > 0,
            i <= batches@.len(),
            coordinator.threads_finished == spec_count_finished(batches@.subrange(0, i as int)),
            drawn == spec_sum_indices(batches@.subrange(0, i as int)),
            drawn <= i * TRIANGLE_ARRAY_SIZE,
            forall|k: int| 0 <= k < batches@.len() ==> (#[trigger] batches@[k]).wf(),
            spec_count_finished(batches@) == max_threads,
            batches@.len() > 0 ==> spec_count_finished(batches@.subrange(0, batches@.len() - 1))
                < max_threads,
            batches@.len() * TRIANGLE_ARRAY_SIZE <= usize::MAX,
        decreases batches@.len() - i,
    {
        proof {
            if i >= batches@.len() {
                assert(batches@.subrange(0, i as int) =~= batches@);
                assert(false);
            }
        }
        let td = &batches[i];
        let draw = coordinator.receive(td);
        match draw {
            Some(d) => {
                proof {
                    assert(i * TRIANGLE_ARRAY_SIZE + TRIANGLE_ARRAY_SIZE <= batches@.len()
                        * TRIANGLE_ARRAY_SIZE) by (nonlinear_arith)
                        requires
                            i + 1 <= batches@.len(),
                    ;
                }
                drawn = drawn + d.triangles;
            },
            None => {},
        }
        i = i + 1;
        proof {
            assert(batches@.subrange(0, i as int).drop_last() =~= batches@.subrange(0, i - 1));
            assert(batches@.subrange(0, i as int).last() == batches@[i - 1]);
        }
    }
    proof {
        if i < batches@.len() {
            lemma_count_finished_monotone(batches@, i as int, batches@.len() - 1);
        }
        assert(i == batches@.len());
        assert(batches@.subrange(0, i as int) =~= batches@);
    }
    (coordinator.threads_finished, drawn)
}

/// Conservation for uniform workers: when `K` workers each contribute `M`
/// triangles in one final batch, the received sequence holds exactly `K`
/// finished batches and the coordinator draws exactly `K × M` triangles.
pub proof fn lemma_uniform_workers(batches: Seq<ThreadData>, k: int, m: int)
    requires
        batches.len() == k,
        forall|i: int| 0 <= i < k ==> (#[trigger] batches[i]).index == m,
        forall|i: int| 0 <= i < k ==> (#[trigger] batches[i]).finished,
    ensures
        spec_count_finished(batches) == k,
        spec_sum_indices(batches) == k * m,
    decreases k,
{
    if k > 0 {
        lemma_uniform_workers(batches.drop_last(), k - 1, m);
        assert((k - 1) * m + m == k * m) by (nonlinear_arith);
    }
}

} // verus!
