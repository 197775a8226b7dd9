use rendercore::batch::{create_threaddata_objects, ThreadData, Vec2Bits, Vec3Bits};
use rendercore::layout::{
    PrimitiveType, VertexArrayType, TRIANGLE_ARRAY_SIZE, TRIANGLE_MAX_TOTAL_COMPONENTS,
};

fn v3(x: f32, y: f32, z: f32) -> Vec3Bits {
    Vec3Bits {
        x: x.to_bits(),
        y: y.to_bits(),
        z: z.to_bits(),
    }
}

fn v2(x: f32, y: f32) -> Vec2Bits {
    Vec2Bits {
        x: x.to_bits(),
        y: y.to_bits(),
    }
}

#[test]
fn components_per_vertex_times_three_is_the_write_stride() {
    for (ty, per_vertex) in [
        (VertexArrayType::F3, 3),
        (VertexArrayType::F3F3F3, 9),
        (VertexArrayType::F3F3, 6),
        (VertexArrayType::F2F2, 4),
    ] {
        assert_eq!(VertexArrayType::components_per_vertex(ty), per_vertex);
        assert_eq!(ty.triangle_stride(), per_vertex * 3);
    }
}

#[test]
fn new_batch_is_empty_and_sized_for_the_widest_layout() {
    let td = ThreadData::new(7);
    assert_eq!(td.thr, 7);
    assert_eq!(td.index, 0);
    assert!(!td.finished);
    assert_eq!(td.data.len(), TRIANGLE_MAX_TOTAL_COMPONENTS);
    assert!(td.data.iter().all(|c| *c == 0));
}

#[test]
fn append_writes_at_the_layout_stride() {
    let mut td = ThreadData::new(0);
    td.vertex_array_type = VertexArrayType::F3;
    td.add_triangle_st_n3(&v3(1.0, 2.0, 3.0), &v3(4.0, 5.0, 6.0), &v3(7.0, 8.0, 9.0));
    td.add_triangle_st_n3(&v3(-1.0, -2.0, -3.0), &v3(0.5, 0.25, 0.125), &v3(9.0, 8.0, 7.0));
    assert_eq!(td.index, 2);
    let expect: Vec<u32> = [1.0f32, 2.0, 3.0, 4.0, 5.0, 6.0, 7.0, 8.0, 9.0]
        .iter()
        .map(|f| f.to_bits())
        .collect();
    assert_eq!(&td.data[0..9], expect.as_slice());
    assert_eq!(td.data[9], (-1.0f32).to_bits());
    assert_eq!(td.data[17], 7.0f32.to_bits());
}

#[test]
fn round_trip_flush_hands_back_exactly_what_was_appended() {
    let mut td = ThreadData::new(0);
    td.vertex_array_type = VertexArrayType::F3F3;
    let n = 5;
    for i in 0..n {
        let f = i as f32;
        td.add_triangle_st_f3f3(
            &v3(f, f + 0.5, f + 1.0),
            &v3(0.0, 1.0, 0.0),
            &v3(f + 2.0, f + 2.5, f + 3.0),
            &v3(0.0, 1.0, 0.0),
            &v3(f + 4.0, f + 4.5, f + 5.0),
            &v3(0.0, 1.0, 0.0),
        );
    }
    assert_eq!(td.index, n);
    let before = td.data.clone();
    let draw = td.check_flush_st(true).expect("a forced flush of a non-empty batch draws");
    assert_eq!(draw.triangles, n);
    assert_eq!(draw.components.len(), n * 18);
    assert_eq!(&before[0..n * 18], draw.components.as_slice());
    assert_eq!(td.index, 0);
    assert_eq!(td.data, before);
}

#[test]
fn unforced_check_on_an_empty_batch_changes_nothing() {
    let mut td = ThreadData::new(3);
    td.vertex_array_type = VertexArrayType::F2F2;
    let before = td.data.clone();
    let draw = td.check_flush_st(false);
    assert!(draw.is_none());
    assert_eq!(td.index, 0);
    assert_eq!(td.thr, 3);
    assert_eq!(td.data, before);
}

#[test]
fn forced_flush_of_an_empty_batch_draws_nothing() {
    let mut td = ThreadData::new(0);
    assert!(td.check_flush_st(true).is_none());
    assert_eq!(td.index, 0);
}

#[test]
fn filling_to_capacity_triggers_the_unforced_flush_with_exactly_capacity() {
    let mut td = ThreadData::new(0);
    td.vertex_array_type = VertexArrayType::F2F2;
    for i in 0..TRIANGLE_ARRAY_SIZE {
        assert!(td.check_flush_st(false).is_none());
        let f = i as f32;
        td.add_triangle_st_f2f2(
            &v2(f, f),
            &v2(0.0, 0.0),
            &v2(f + 1.0, f),
            &v2(1.0, 0.0),
            &v2(f, f + 1.0),
            &v2(0.0, 1.0),
        );
    }
    assert_eq!(td.index, TRIANGLE_ARRAY_SIZE);
    let draw = td.check_flush_st(false).expect("the capacity branch flushes");
    assert_eq!(draw.triangles, TRIANGLE_ARRAY_SIZE);
    assert_eq!(draw.components.len(), TRIANGLE_ARRAY_SIZE * 12);
    assert_eq!(td.index, 0);
}

#[test]
fn single_triangle_flush_carries_eighteen_components_in_vertex_order() {
    let mut td = ThreadData::new(0);
    td.vertex_array_type = VertexArrayType::F3F3;
    td.primitive = PrimitiveType::PrimitiveTriangles;
    let vertices = [
        [0.0f32, 0.0, 0.0],
        [1.0, 0.0, 0.0],
        [0.0, 1.0, 0.0],
    ];
    let normal = [0.0f32, 0.0, 1.0];
    td.add_triangle_st_f3f3(
        &v3(vertices[0][0], vertices[0][1], vertices[0][2]),
        &v3(normal[0], normal[1], normal[2]),
        &v3(vertices[1][0], vertices[1][1], vertices[1][2]),
        &v3(normal[0], normal[1], normal[2]),
        &v3(vertices[2][0], vertices[2][1], vertices[2][2]),
        &v3(normal[0], normal[1], normal[2]),
    );
    assert_eq!(td.index, 1);
    let draw = td.check_flush_st(true).expect("one triangle flushes");
    assert_eq!(draw.triangles, 1);
    assert_eq!(draw.components.len(), 18);
    let mut expect: Vec<u32> = Vec::new();
    for v in &vertices {
        expect.extend(v.iter().map(|f| f.to_bits()));
        expect.extend(normal.iter().map(|f| f.to_bits()));
    }
    assert_eq!(draw.components, expect);
}

#[test]
fn worker_flush_hands_over_a_deep_copy_marked_with_the_force_flag() {
    let mut td = ThreadData::new(2);
    td.vertex_array_type = VertexArrayType::F3;
    td.add_triangle_st_n3(&v3(1.0, 0.0, 0.0), &v3(0.0, 1.0, 0.0), &v3(0.0, 0.0, 1.0));
    let copy = td.check_flush(true).expect("a forced worker flush hands the batch over");
    assert_eq!(td.index, 0);
    assert_eq!(copy.index, 1);
    assert_eq!(copy.thr, 2);
    assert!(copy.finished);
    assert_eq!(copy.data, td.data);
}

#[test]
fn unforced_worker_check_below_capacity_hands_nothing_over() {
    let mut td = ThreadData::new(0);
    td.vertex_array_type = VertexArrayType::F3;
    td.add_triangle_st_n3(&v3(1.0, 0.0, 0.0), &v3(0.0, 1.0, 0.0), &v3(0.0, 0.0, 1.0));
    assert!(td.check_flush(false).is_none());
    assert_eq!(td.index, 1);
}

#[test]
fn duplicate_is_a_deep_copy() {
    let mut td = ThreadData::new(1);
    td.vertex_array_type = VertexArrayType::F3;
    td.add_triangle_st_n3(&v3(5.0, 6.0, 7.0), &v3(8.0, 9.0, 10.0), &v3(11.0, 12.0, 13.0));
    let copy = td.duplicate();
    td.data[0] = 0;
    assert_eq!(copy.data[0], 5.0f32.to_bits());
    assert_eq!(copy.index, 1);
}

#[test]
fn one_batch_is_created_per_thread() {
    let batches = create_threaddata_objects(4);
    assert_eq!(batches.len(), 4);
    for (i, b) in batches.iter().enumerate() {
        assert_eq!(b.thr, i);
        assert_eq!(b.index, 0);
        assert!(!b.finished);
    }
}
