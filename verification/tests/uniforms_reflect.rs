use rendercore::batch::Vec3Bits;
use rendercore::bytesutil::{
    bytes_eq, contains_seq, parse_i32_or_zero, parse_u32_or_zero, split_byte, subvec,
};
use rendercore::reflect::{lookup_u32, lookup_usize, parse_reflection};
use rendercore::resources::{
    BlockUniformSpec, ResourceManager, ShaderSpec, UniformBlockSpec, UniformType,
};
use rendercore::layout::VertexArrayType;
use rendercore::uniforms::{lookup_entry, UniformBufferDesc, UniformBuffers};

fn desc_with(offsets: Vec<(&str, usize)>, strides: Vec<(&str, usize)>, size: usize) -> UniformBufferDesc {
    UniformBufferDesc::from_layout(
        size,
        offsets.into_iter().map(|(n, v)| (n.to_string(), v)).collect(),
        strides.into_iter().map(|(n, v)| (n.to_string(), v)).collect(),
    )
}

#[test]
fn scalar_updates_land_at_the_recorded_offset_in_little_endian_words() {
    let mut d = desc_with(vec![("alpha", 4), ("beta", 8)], vec![], 16);
    assert!(d.set_uniform_buffer_int("alpha", -2));
    assert!(d.set_uniform_buffer_float("beta", 1.0f32.to_bits()));
    let bytes = d.contents();
    assert_eq!(&bytes[0..4], &[0, 0, 0, 0]);
    assert_eq!(&bytes[4..8], &(-2i32).to_le_bytes());
    assert_eq!(&bytes[8..12], &1.0f32.to_le_bytes());
    assert_eq!(&bytes[12..16], &[0, 0, 0, 0]);
}

#[test]
fn updates_for_unknown_or_oversized_uniforms_are_skipped() {
    let mut d = desc_with(vec![("near_end", 14)], vec![], 16);
    assert!(!d.set_uniform_buffer_int("missing", 7));
    assert!(!d.set_uniform_buffer_int("near_end", 7));
    assert!(d.contents().iter().all(|b| *b == 0));
}

#[test]
fn vec3_and_matrix_updates_are_contiguous_words() {
    let mut d = desc_with(vec![("dir", 0), ("mvp", 16)], vec![], 80);
    let v = Vec3Bits {
        x: 1.0f32.to_bits(),
        y: 2.0f32.to_bits(),
        z: 3.0f32.to_bits(),
    };
    assert!(d.set_uniform_buffer_vec3("dir", &v));
    let m: Vec<u32> = (0..16).map(|i| (i as f32).to_bits()).collect();
    assert!(d.set_uniform_buffer_matrix("mvp", &m));
    let bytes = d.contents();
    assert_eq!(&bytes[0..4], &1.0f32.to_le_bytes());
    assert_eq!(&bytes[8..12], &3.0f32.to_le_bytes());
    for i in 0..16 {
        let at = 16 + 4 * i;
        assert_eq!(&bytes[at..at + 4], &(i as f32).to_le_bytes());
    }
}

#[test]
fn a_natural_stride_copies_contiguously_and_a_wide_stride_scatters() {
    let mut d = desc_with(
        vec![("packed", 0), ("strided", 32)],
        vec![("packed", 4), ("strided", 16)],
        80,
    );
    let words: Vec<u32> = vec![10.0f32.to_bits(), 20.0f32.to_bits(), 30.0f32.to_bits()];
    assert!(d.set_uniform_buffer_float_vector("packed", &words));
    assert!(d.set_uniform_buffer_float_vector("strided", &words));
    let bytes = d.contents();
    assert_eq!(&bytes[0..4], &10.0f32.to_le_bytes());
    assert_eq!(&bytes[4..8], &20.0f32.to_le_bytes());
    assert_eq!(&bytes[8..12], &30.0f32.to_le_bytes());
    assert_eq!(&bytes[32..36], &10.0f32.to_le_bytes());
    assert_eq!(&bytes[36..40], &[0, 0, 0, 0]);
    assert_eq!(&bytes[48..52], &20.0f32.to_le_bytes());
    assert_eq!(&bytes[64..68], &30.0f32.to_le_bytes());
}

#[test]
fn a_zero_stride_counts_as_the_natural_element_width() {
    let mut d = desc_with(vec![("zs", 0)], vec![("zs", 0)], 8);
    let words: Vec<u32> = vec![7, 9];
    assert!(d.set_uniform_buffer_float_vector("zs", &words));
    let bytes = d.contents();
    assert_eq!(&bytes[0..4], &7u32.to_le_bytes());
    assert_eq!(&bytes[4..8], &9u32.to_le_bytes());
}

#[test]
fn an_array_that_would_pass_the_end_of_the_region_is_skipped() {
    let mut d = desc_with(vec![("a", 0)], vec![("a", 16)], 19);
    let words: Vec<u32> = vec![1, 2];
    assert!(!d.set_uniform_buffer_float_vector("a", &words));
    assert!(d.contents().iter().all(|b| *b == 0));
    // With one more byte the last element fits exactly.
    let mut d2 = desc_with(vec![("a", 0)], vec![("a", 16)], 20);
    assert!(d2.set_uniform_buffer_float_vector("a", &words));
}

#[test]
fn the_latest_entry_for_a_name_wins() {
    let entries: Vec<(String, usize)> =
        vec![("x".to_string(), 1), ("y".to_string(), 2), ("x".to_string(), 3)];
    assert_eq!(lookup_entry(&entries, "x"), Some(3));
    assert_eq!(lookup_entry(&entries, "y"), Some(2));
    assert_eq!(lookup_entry(&entries, "z"), None);
}

const LISTING: &str = "Uniform reflection:\r\nproj: offset 16, binding -1\r\ntex0: offset -1, binding 2\r\nnoise: offset bad1\r\nUniform block reflection:\r\nGlobals: size 192, binding 1\r\nignored line without a marker\r\nVertex attribute reflection:\r\nposition: offset 0\r\n";

#[test]
fn a_reflection_listing_yields_its_offsets_sizes_and_bindings() {
    let refl = parse_reflection(&LISTING.as_bytes().to_vec());
    assert_eq!(lookup_usize(&refl.offsets, b"proj"), Some(16));
    assert_eq!(lookup_usize(&refl.offsets, b"tex0"), None);
    assert_eq!(lookup_u32(&refl.uniform_bindings, b"tex0"), Some(2));
    assert_eq!(lookup_usize(&refl.block_sizes, b"Globals"), Some(192));
    assert_eq!(lookup_u32(&refl.block_bindings, b"Globals"), Some(1));
    // Entries in the vertex-attribute section are not collected.
    assert_eq!(lookup_usize(&refl.offsets, b"position"), None);
    // An unparsable number reads as zero.
    assert_eq!(lookup_usize(&refl.offsets, b"noise"), Some(0));
}

#[test]
fn number_fields_parse_like_the_original_with_zero_for_failures() {
    assert_eq!(parse_u32_or_zero(&b"123".to_vec()), 123);
    assert_eq!(parse_u32_or_zero(&b"+5".to_vec()), 5);
    assert_eq!(parse_u32_or_zero(&b"".to_vec()), 0);
    assert_eq!(parse_u32_or_zero(&b"12a".to_vec()), 0);
    assert_eq!(parse_u32_or_zero(&b"99999999999".to_vec()), 0);
    assert_eq!(parse_u32_or_zero(&b"4294967295".to_vec()), u32::MAX);
    assert_eq!(parse_u32_or_zero(&b"4294967296".to_vec()), 0);
    assert_eq!(parse_i32_or_zero(&b"-7".to_vec()), -7);
    assert_eq!(parse_i32_or_zero(&b"2147483647".to_vec()), i32::MAX);
    assert_eq!(parse_i32_or_zero(&b"2147483648".to_vec()), 0);
    assert_eq!(parse_i32_or_zero(&b"-2147483648".to_vec()), i32::MIN);
    assert_eq!(parse_i32_or_zero(&b"-2147483649".to_vec()), 0);
    assert_eq!(parse_i32_or_zero(&b"-".to_vec()), 0);
}

#[test]
fn byte_helpers_split_search_and_compare() {
    let s = b"a,bc,,d".to_vec();
    let pieces = split_byte(&s, b',');
    let views: Vec<&[u8]> = pieces.iter().map(|p| p.as_slice()).collect();
    assert_eq!(views, vec![b"a".as_slice(), b"bc", b"", b"d"]);
    assert!(contains_seq(&s, b"bc,"));
    assert!(!contains_seq(&s, b"cb"));
    assert!(contains_seq(&s, b""));
    assert!(bytes_eq(b"xy", b"xy"));
    assert!(!bytes_eq(b"xy", b"xz"));
    assert_eq!(subvec(&s, 2, 4), b"bc".to_vec());
}

#[test]
fn reflection_updates_the_named_block_and_leaves_others_alone() {
    let refl = parse_reflection(&LISTING.as_bytes().to_vec());
    let globals = UniformBlockSpec {
        name: "Globals".to_string(),
        size: 0,
        set: 0,
        binding: u32::MAX,
        block_type: UniformType::UniformBuffer,
        uniforms: vec![
            BlockUniformSpec {
                name: "proj".to_string(),
                offset: 0,
                stride: 0,
            },
            BlockUniformSpec {
                name: "unlisted".to_string(),
                offset: 77,
                stride: 4,
            },
        ],
    };
    let other = UniformBlockSpec {
        name: "Other".to_string(),
        size: 3,
        set: 1,
        binding: 9,
        block_type: UniformType::StorageBuffer,
        uniforms: vec![],
    };
    let shader = ShaderSpec {
        name: "terrain".to_string(),
        library_files: vec![],
        shader_files: vec![],
        uniform_block_names: vec!["Globals".to_string()],
        uniform_specs: vec![],
        vertex_array_type: VertexArrayType::F3F3F3,
        attributes: vec![],
        fragment_out: "colour".to_string(),
        depth_test_enabled: true,
        alpha_blending_enabled: false,
        pass_identifier: 0,
    };
    let mut manager = ResourceManager::new(vec![globals, other], vec![shader]);
    assert!(manager.apply_reflection_to_block("Globals", &refl));
    assert!(!manager.apply_reflection_to_block("NoSuchBlock", &refl));
    let b = &manager.uniform_block_specs[0];
    assert_eq!(b.size, 192);
    assert_eq!(b.binding, 1);
    assert_eq!(b.uniforms[0].offset, 16);
    assert_eq!(b.uniforms[1].offset, 77);
    let o = &manager.uniform_block_specs[1];
    assert_eq!(o.size, 3);
    assert_eq!(o.binding, 9);
    let found = manager.get_shader_spec("terrain").expect("the shader is known");
    assert_eq!(found.pass_identifier, 0);
    assert!(manager.get_shader_spec("absent").is_none());
}

#[test]
fn named_buffers_route_updates_to_the_right_region() {
    let mut buffers = UniformBuffers::new();
    buffers.insert_buffer(
        "globals".to_string(),
        desc_with(vec![("proj", 0)], vec![], 64),
    );
    buffers.insert_buffer(
        "lights".to_string(),
        desc_with(vec![("count", 0)], vec![], 16),
    );
    assert!(buffers.set_uniform_buffer_int("lights", "count", 3));
    assert!(!buffers.set_uniform_buffer_int("missing", "count", 3));
    assert!(!buffers.set_uniform_buffer_int("globals", "count", 3));
    let m: Vec<u32> = (0..16).map(|i| (100.0f32 + i as f32).to_bits()).collect();
    assert!(buffers.set_uniform_buffer_matrix("globals", "proj", &m));
    let globals = buffers.contents_of("globals").expect("the buffer is known");
    assert_eq!(&globals[0..4], &100.0f32.to_le_bytes());
    assert_eq!(&globals[60..64], &115.0f32.to_le_bytes());
    let lights = buffers.contents_of("lights").expect("the buffer is known");
    assert_eq!(&lights[0..4], &3i32.to_le_bytes());
    assert!(buffers.contents_of("missing").is_none());
}

#[test]
fn named_buffer_vector_updates_honour_the_recorded_stride() {
    let mut buffers = UniformBuffers::new();
    buffers.insert_buffer(
        "arrays".to_string(),
        desc_with(vec![("xs", 4)], vec![("xs", 8)], 32),
    );
    let words: Vec<u32> = vec![11, 22];
    assert!(buffers.set_uniform_buffer_float_vector("arrays", "xs", &words));
    let v = Vec3Bits { x: 1, y: 2, z: 3 };
    assert!(!buffers.set_uniform_buffer_vec3("arrays", "nope", &v));
    assert!(buffers.set_uniform_buffer_float("arrays", "xs", 7));
    let bytes = buffers.contents_of("arrays").unwrap();
    assert_eq!(&bytes[4..8], &7u32.to_le_bytes());
    assert_eq!(&bytes[12..16], &22u32.to_le_bytes());
}

#[test]
fn a_block_spec_yields_a_zeroed_staging_region_with_its_uniform_tables() {
    let block = UniformBlockSpec {
        name: "Globals".to_string(),
        size: 32,
        set: 0,
        binding: 1,
        block_type: UniformType::UniformBuffer,
        uniforms: vec![
            BlockUniformSpec {
                name: "proj".to_string(),
                offset: 0,
                stride: 0,
            },
            BlockUniformSpec {
                name: "xs".to_string(),
                offset: 16,
                stride: 8,
            },
        ],
    };
    let mut d = UniformBufferDesc::from_block_spec(&block);
    assert_eq!(d.size, 32);
    assert!(d.contents().iter().all(|b| *b == 0));
    assert!(d.set_uniform_buffer_int("proj", 5));
    let words: Vec<u32> = vec![1, 2];
    assert!(d.set_uniform_buffer_float_vector("xs", &words));
    let bytes = d.contents();
    assert_eq!(&bytes[0..4], &5i32.to_le_bytes());
    assert_eq!(&bytes[16..20], &1u32.to_le_bytes());
    assert_eq!(&bytes[24..28], &2u32.to_le_bytes());
}
