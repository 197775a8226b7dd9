use rendercore::embedded::{lookup_resource, EmbeddedResources, NoEmbedded};
use rendercore::frame::{FrameLifecycle, FramePhase};
use rendercore::hexdump::{hex_pair, safe_char, to_hex, DUMP_PAD};
use rendercore::image::{rgb_to_rgba, Image};
use rendercore::layout::VertexArrayType;
use rendercore::resources::{ShaderStage, UniformType};
use rendercore::shadertext::{
    concat_sources, preprocess_glsl, rebuild_needed, shader_extension_name, shader_stage_name,
};
use rendercore::version::{make_api_version, parse_version};

#[test]
fn decoded_rgb_bytes_gain_a_zeroed_alpha_channel() {
    let rgb = vec![1u8, 2, 3, 4, 5, 6];
    assert_eq!(rgb_to_rgba(&rgb), vec![1, 2, 3, 0, 4, 5, 6, 0]);
    assert_eq!(rgb_to_rgba(&vec![7, 8]), vec![7, 8]);
    assert_eq!(rgb_to_rgba(&vec![]), Vec::<u8>::new());
}

#[test]
fn snapshot_data_is_flipped_to_top_to_bottom_row_order() {
    // Two rows of two RGB pixels, bottom row first as read back.
    let raw = vec![
        10u8, 11, 12, 20, 21, 22, // bottom row
        30, 31, 32, 40, 41, 42, // top row
    ];
    let img = Image::create_from_raw_data(2, 2, &raw);
    assert_eq!(img.get_width(), 2);
    assert_eq!(img.get_height(), 2);
    assert_eq!(
        img.get_data(),
        vec![30, 31, 32, 40, 41, 42, 10, 11, 12, 20, 21, 22]
    );
}

#[test]
fn an_image_from_decoded_pixels_keeps_them() {
    let img = Image::from_pixels(1, 2, vec![1, 2, 3, 0, 4, 5, 6, 0]);
    assert_eq!(img.get_width(), 1);
    assert_eq!(img.get_height(), 2);
    assert_eq!(img.get_data().len(), 8);
}

#[test]
fn no_embedded_resources_means_none() {
    let e = NoEmbedded::new();
    assert!(!e.use_me());
    assert!(e.resources().is_empty());
    let table = vec![
        ("a.glsl".to_string(), "void main() {}".to_string()),
    ];
    assert_eq!(
        lookup_resource(&table, "a.glsl").map(|s| s.as_str()),
        Some("void main() {}")
    );
    assert!(lookup_resource(&table, "b.glsl").is_none());
}

#[test]
fn hex_digits_and_printable_renditions() {
    assert_eq!(to_hex(0), '0');
    assert_eq!(to_hex(9), '9');
    assert_eq!(to_hex(10), 'a');
    assert_eq!(to_hex(15), 'f');
    assert_eq!(to_hex(16), '?');
    assert_eq!(hex_pair(0xff), ('f', 'f'));
    assert_eq!(hex_pair(0x4a), ('4', 'a'));
    assert_eq!(hex_pair(DUMP_PAD), (' ', ' '));
    assert_eq!(safe_char('A' as u32), 'A');
    assert_eq!(safe_char(7), '.');
    assert_eq!(safe_char(DUMP_PAD), ' ');
}

#[test]
fn stage_names_match_the_compiler_conventions() {
    assert_eq!(shader_stage_name(ShaderStage::VertexShader), "vertex");
    assert_eq!(shader_stage_name(ShaderStage::GeometryShader), "geometry");
    assert_eq!(shader_extension_name(ShaderStage::VertexShader), "vert");
    assert_eq!(shader_extension_name(ShaderStage::TessControlShader), "tesc");
    assert_eq!(shader_extension_name(ShaderStage::TessEvalShader), "tese");
    assert_eq!(shader_extension_name(ShaderStage::FragmentShader), "frag");
}

#[test]
fn an_old_driver_gets_descriptor_set_qualifiers_stripped() {
    let src = "layout(set = 0, binding = 1) uniform X { float a; };\n";
    let out = preprocess_glsl(src, true);
    assert_eq!(
        out,
        "#version 450 core\nlayout( binding = 1) uniform X { float a; };\n"
    );
    let kept = preprocess_glsl(src, false);
    assert_eq!(
        kept,
        format!(
            "#version 450 core\n#extension GL_KHR_vulkan_glsl : enable\n{}",
            src
        )
    );
}

#[test]
fn library_sources_are_concatenated_with_line_resets() {
    let libs = vec!["float pi;".to_string(), "float tau;".to_string()];
    let out = concat_sources(&libs, "void main() {}");
    assert_eq!(
        out,
        "float pi;\n#line 1\nfloat tau;\n#line 1\nvoid main() {}"
    );
}

#[test]
fn a_newer_input_forces_a_rebuild() {
    assert!(rebuild_needed(&vec![5, 100, 7], 50));
    assert!(!rebuild_needed(&vec![5, 50, 7], 50));
    assert!(!rebuild_needed(&vec![], 0));
}

#[test]
fn version_strings_parse_and_pack() {
    assert_eq!(parse_version("1.2.3"), Some((1, 2, 3)));
    assert_eq!(parse_version("10.0.0"), Some((10, 0, 0)));
    assert_eq!(parse_version("not a version"), None);
    assert_eq!(make_api_version(1, 0, 0), 1 << 22);
    assert_eq!(make_api_version(1, 2, 3), (1 << 22) | (2 << 12) | 3);
}

#[test]
fn layout_codes_round_trip() {
    for code in 0..4u32 {
        assert_eq!(VertexArrayType::from_u32(code).layout_index() as u32, code);
    }
    assert_eq!(UniformType::UniformBuffer.code(), 6);
    assert_eq!(UniformType::Sampler.code(), 0);
    assert_eq!(UniformType::InputAttachment.code(), 10);
}

#[test]
fn a_frame_walks_its_lifecycle_in_order() {
    let mut f = FrameLifecycle::new(2);
    assert_eq!(f.phase, FramePhase::Idle);
    f.begin_frame(1);
    assert_eq!(f.phase, FramePhase::FrameBegun);
    assert_eq!(f.image_index, 1);
    f.select_render_target(0xdead);
    assert_eq!(f.clear_depth_target(), 0xdead);
    f.begin_pass();
    assert_eq!(f.phase, FramePhase::PassActive);
    f.end_pass();
    assert_eq!(f.passes_completed, 1);
    f.deselect_render_target();
    assert!(f.current_depth_target.is_none());
    f.end_frame();
    assert_eq!(f.phase, FramePhase::Submitted);
    f.present();
    assert_eq!(f.phase, FramePhase::Idle);
}
