use rendercore::batch::{ThreadData, Vec3Bits};
use rendercore::harness::{needs_coordinator, run_coordinator, Coordinator};
use rendercore::layout::{RendererType, VertexArrayType, TRIANGLE_ARRAY_SIZE};
use rendercore::pools::{BufferSlot, VertexBufferPools};
use std::sync::mpsc;

fn v3(x: f32, y: f32, z: f32) -> Vec3Bits {
    Vec3Bits {
        x: x.to_bits(),
        y: y.to_bits(),
        z: z.to_bits(),
    }
}

fn worker_batches(thr: usize, triangles: usize, finished: bool) -> ThreadData {
    let mut td = ThreadData::new(thr);
    td.vertex_array_type = VertexArrayType::F3;
    for i in 0..triangles {
        let f = i as f32;
        td.add_triangle_st_n3(&v3(f, 0.0, 0.0), &v3(0.0, f, 0.0), &v3(0.0, 0.0, f));
    }
    td.finished = finished;
    td
}

#[test]
fn only_the_immediate_backend_with_several_workers_needs_a_coordinator() {
    assert!(!needs_coordinator(RendererType::RendererGl, 1));
    assert!(needs_coordinator(RendererType::RendererGl, 2));
    assert!(!needs_coordinator(RendererType::RendererVk, 1));
    assert!(!needs_coordinator(RendererType::RendererVk, 8));
}

#[test]
fn coordinator_counts_only_final_batches() {
    let mut c = Coordinator::new(2);
    assert!(!c.done());
    let draw = c.receive(&worker_batches(0, 3, false));
    assert_eq!(draw.unwrap().triangles, 3);
    assert_eq!(c.threads_finished, 0);
    c.receive(&worker_batches(0, 2, true));
    assert_eq!(c.threads_finished, 1);
    assert!(!c.done());
    c.receive(&worker_batches(1, 1, true));
    assert_eq!(c.threads_finished, 2);
    assert!(c.done());
}

#[test]
fn tally_reaches_worker_count_and_no_triangle_is_lost_or_duplicated() {
    let k = 3;
    let m = 7;
    let mut received: Vec<ThreadData> = Vec::new();
    for thr in 0..k {
        received.push(worker_batches(thr, m, true));
    }
    let (tally, drawn) = run_coordinator(&received, k);
    assert_eq!(tally, k);
    assert_eq!(drawn, k * m);
}

#[test]
fn interleaved_partial_batches_still_conserve_the_triangle_count() {
    let received = vec![
        worker_batches(0, 4, false),
        worker_batches(1, 2, false),
        worker_batches(0, 1, true),
        worker_batches(2, 0, true),
        worker_batches(1, 5, true),
    ];
    let (tally, drawn) = run_coordinator(&received, 3);
    assert_eq!(tally, 3);
    assert_eq!(drawn, 4 + 2 + 1 + 0 + 5);
}

#[test]
fn pool_grows_on_demand_and_pass_reset_returns_the_cursor_to_the_start() {
    let images = 2;
    let threads = 1;
    let mut pools = VertexBufferPools::new(images, threads);
    let image = 0;
    let ty = VertexArrayType::F3F3;
    let thr = 0;
    let mut next_handle: u64 = 100;
    let mut flushes_done = 0usize;

    // Two passes, each producing capacity + 10 primitives: one flush at
    // capacity and one forced flush at pass end.
    for pass in 0..2 {
        pools.reset_pass_cursors(image);
        assert_eq!(pools.cursor(image, ty, thr), -1);
        let mut td = ThreadData::new(thr);
        td.vertex_array_type = ty;
        let mut produced = 0;
        while produced < TRIANGLE_ARRAY_SIZE + 10 {
            let force = false;
            if let Some(draw) = td.check_flush_st(force) {
                flush_explicit(&mut pools, image, ty, thr, &mut next_handle, draw.triangles);
                flushes_done += 1;
            }
            td.add_triangle_st_f3f3(
                &v3(1.0, 0.0, 0.0),
                &v3(0.0, 0.0, 1.0),
                &v3(0.0, 1.0, 0.0),
                &v3(0.0, 0.0, 1.0),
                &v3(0.0, 0.0, 0.0),
                &v3(0.0, 0.0, 1.0),
            );
            produced += 1;
        }
        if let Some(draw) = td.check_flush_st(true) {
            flush_explicit(&mut pools, image, ty, thr, &mut next_handle, draw.triangles);
            flushes_done += 1;
        }
        if pass == 0 {
            // First flush of the first pass selected pool entry 0.
            assert_eq!(pools.cursor(image, ty, thr), 1);
        }
    }

    assert_eq!(flushes_done, 4);
    // The per-slot pool grew to two entries in the first pass and was reused
    // in the second: the second pass's first flush selected entry 0 again.
    assert!(pools.pool_len(image, ty, thr) >= 2);
    assert_eq!(pools.pool_len(image, ty, thr), 2);
    assert_eq!(pools.cursor(image, ty, thr), 1);
    // The other image's slots were never touched.
    assert_eq!(pools.pool_len(1, ty, thr), 0);
    assert_eq!(pools.cursor(1, ty, thr), -1);
}

fn flush_explicit(
    pools: &mut VertexBufferPools,
    image: usize,
    ty: VertexArrayType,
    thr: usize,
    next_handle: &mut u64,
    triangles: usize,
) {
    assert!(triangles > 0);
    let needs_new = pools.advance(image, ty, thr);
    if needs_new {
        let slot = BufferSlot {
            buffer: *next_handle,
            memory: *next_handle + 1,
        };
        *next_handle += 2;
        pools.push_slot(image, ty, thr, slot);
    }
    let _slot = pools.current_slot(image, ty, thr);
}

#[test]
fn first_flush_after_reset_selects_entry_zero_not_a_stale_index() {
    let mut pools = VertexBufferPools::new(1, 2);
    let ty = VertexArrayType::F3;
    // Grow thread 0's pool to three entries within one pass.
    pools.reset_pass_cursors(0);
    for h in 0..3u64 {
        let needs_new = pools.advance(0, ty, 0);
        assert!(needs_new);
        pools.push_slot(0, ty, 0, BufferSlot { buffer: h, memory: h });
    }
    assert_eq!(pools.cursor(0, ty, 0), 2);
    // Next pass: the cursor returns to -1 and the first flush takes entry 0.
    pools.reset_pass_cursors(0);
    assert_eq!(pools.cursor(0, ty, 0), -1);
    let needs_new = pools.advance(0, ty, 0);
    assert!(!needs_new);
    assert_eq!(pools.current_slot(0, ty, 0).buffer, 0);
    // The other thread's slot is independent.
    assert_eq!(pools.cursor(0, ty, 1), -1);
    assert_eq!(pools.pool_len(0, ty, 1), 0);
}

#[test]
fn concurrent_workers_hand_all_their_triangles_to_the_coordinator() {
    let k = 3usize;
    let m = 20usize; // triangles per worker, below capacity

    let (datatx, datarx) = mpsc::channel::<ThreadData>();
    let mut backtxs: Vec<mpsc::Sender<i32>> = Vec::new();
    let mut backrxs: Vec<Option<mpsc::Receiver<i32>>> = Vec::new();
    for _ in 0..k {
        let (tx, rx) = mpsc::channel::<i32>();
        backtxs.push(tx);
        backrxs.push(Some(rx));
    }

    crossbeam::thread::scope(|scope| {
        for thr in 0..k {
            let datatx = datatx.clone();
            let backrx = backrxs[thr].take().unwrap();
            scope.spawn(move |_| {
                let mut td = ThreadData::new(thr);
                td.vertex_array_type = VertexArrayType::F3;
                for i in 0..m {
                    // Flush-before-append: hand the batch over when full and
                    // wait for the acknowledgment before touching it again.
                    if let Some(handoff) = td.check_flush(false) {
                        datatx.send(handoff).unwrap();
                        let _ = backrx.recv();
                    }
                    let f = i as f32;
                    td.add_triangle_st_n3(
                        &v3(f, 0.0, 0.0),
                        &v3(0.0, f, 0.0),
                        &v3(0.0, 0.0, f),
                    );
                    // Flush part of the work mid-frame to interleave arrivals.
                    if i == m / 2 {
                        if let Some(handoff) = td.check_flush(true) {
                            // A mid-frame forced flush marks the batch
                            // finished; clear the flag as this worker is not
                            // done yet, as a pass-end flush would.
                            let mut handoff = handoff;
                            handoff.finished = false;
                            datatx.send(handoff).unwrap();
                            let _ = backrx.recv();
                        }
                    }
                }
                let handoff = td.check_flush(true).expect("the final flush hands the batch over");
                datatx.send(handoff).unwrap();
                let _ = backrx.recv();
            });
        }

        let mut coordinator = Coordinator::new(k);
        let mut drawn = 0usize;
        while !coordinator.done() {
            let td = datarx.recv().unwrap();
            let thr = td.thr;
            if let Some(draw) = coordinator.receive(&td) {
                drawn += draw.triangles;
            }
            let _ = backtxs[thr].send(0);
        }
        assert_eq!(coordinator.threads_finished, k);
        assert_eq!(drawn, k * m);
    })
    .unwrap();
}
