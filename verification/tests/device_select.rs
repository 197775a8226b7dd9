use rendercore::deviceselect::{
    choose_presentation_mode, choose_surface_format, choose_supported_format, device_extensions,
    find_suitable_memory, has_stencil_component, instance_extensions, instance_layers,
    COLOR_SPACE_SRGB_NONLINEAR, FORMAT_D24_UNORM_S8_UINT, FORMAT_D32_SFLOAT_S8_UINT,
    FORMAT_R8G8B8A8_UNORM, FORMAT_UNDEFINED, NO_SUITABLE_MEMORY, PRESENT_MODE_FIFO,
};
use rendercore::barriers::{
    command_buffer_usage_flags, ImageLayout, ACCESS_DEPTH_STENCIL_ATTACHMENT_WRITE,
    ACCESS_MEMORY_READ, ACCESS_TRANSFER_WRITE,
};
use rendercore::resources::{
    BlockUniformSpec, ResourceManager, ShaderSpec, UniformBlockSpec, UniformSpec, UniformType,
};
use rendercore::layout::VertexArrayType;

#[test]
fn the_first_memory_type_with_the_right_bit_and_flags_is_taken() {
    // Type 0 lacks the flags, type 1 is filtered out, type 2 fits.
    let flags = vec![0b0001u32, 0b0111, 0b0111, 0b0111];
    let filter = 0b1101u32;
    assert_eq!(find_suitable_memory(filter, &flags, 0b0110), 2);
    assert_eq!(find_suitable_memory(filter, &flags, 0b0001), 0);
    assert_eq!(find_suitable_memory(0, &flags, 0b0001), NO_SUITABLE_MEMORY);
    assert_eq!(find_suitable_memory(filter, &flags, 0b1000), NO_SUITABLE_MEMORY);
}

#[test]
fn an_undefined_single_format_means_the_default_is_taken() {
    assert_eq!(
        choose_surface_format(&vec![(FORMAT_UNDEFINED, 9)]),
        (FORMAT_R8G8B8A8_UNORM, COLOR_SPACE_SRGB_NONLINEAR)
    );
    assert_eq!(choose_surface_format(&vec![(44, 0), (37, 0)]), (44, 0));
    assert_eq!(
        choose_surface_format(&vec![(FORMAT_UNDEFINED, 0), (44, 0)]),
        (FORMAT_UNDEFINED, 0)
    );
}

#[test]
fn queued_presentation_wins_whenever_offered() {
    assert_eq!(choose_presentation_mode(&vec![1, 0, PRESENT_MODE_FIFO, 3]), PRESENT_MODE_FIFO);
    assert_eq!(choose_presentation_mode(&vec![1, 0, 3]), 1);
}

#[test]
fn stencil_components_are_recognised() {
    assert!(has_stencil_component(FORMAT_D32_SFLOAT_S8_UINT));
    assert!(has_stencil_component(FORMAT_D24_UNORM_S8_UINT));
    assert!(!has_stencil_component(126));
}

#[test]
fn the_first_candidate_with_the_features_under_the_tiling_is_taken() {
    let candidates = vec![
        (126u32, 0b00u32, 0b01u32),
        (130, 0b11, 0b00),
        (129, 0b11, 0b11),
    ];
    assert_eq!(choose_supported_format(&candidates, false, 0b10), Some(129));
    assert_eq!(choose_supported_format(&candidates, true, 0b10), Some(130));
    assert_eq!(choose_supported_format(&candidates, false, 0b01), Some(126));
    assert_eq!(choose_supported_format(&candidates, false, 0b100), None);
}

#[test]
fn the_highest_descriptor_set_of_a_shader_counts_blocks_and_uniforms() {
    let block = |name: &str, set: u32| UniformBlockSpec {
        name: name.to_string(),
        size: 0,
        set,
        binding: 0,
        block_type: UniformType::UniformBuffer,
        uniforms: Vec::<BlockUniformSpec>::new(),
    };
    let manager = ResourceManager::new(
        vec![block("A", 1), block("B", 3), block("C", 9)],
        vec![],
    );
    let shader = ShaderSpec {
        name: "s".to_string(),
        library_files: vec![],
        shader_files: vec![],
        uniform_block_names: vec!["A".to_string(), "B".to_string()],
        uniform_specs: vec![UniformSpec {
            name: "tex".to_string(),
            set: 2,
            binding: 0,
            uniform_type: UniformType::CombinedImageSampler,
        }],
        vertex_array_type: VertexArrayType::F3,
        attributes: vec![],
        fragment_out: "c".to_string(),
        depth_test_enabled: false,
        alpha_blending_enabled: false,
        pass_identifier: 0,
    };
    // Block C is not used by the shader, so its set does not count.
    assert_eq!(manager.number_of_sets(&shader), 3);
}

#[test]
fn layout_transitions_carry_the_right_access_masks() {
    assert_eq!(ImageLayout::Undefined.transition_source_access(), 0);
    assert_eq!(
        ImageLayout::TransferDst.transition_source_access(),
        ACCESS_TRANSFER_WRITE
    );
    assert_eq!(
        ImageLayout::DepthStencilAttachment.transition_destination_access(),
        ACCESS_DEPTH_STENCIL_ATTACHMENT_WRITE
    );
    assert_eq!(
        ImageLayout::PresentSrc.transition_destination_access(),
        ACCESS_MEMORY_READ
    );
    assert_eq!(ImageLayout::PresentSrc.code(), 1000001002);
    assert_eq!(ImageLayout::ColorAttachment.code(), 2);
}

#[test]
fn requested_layers_and_extensions_follow_the_debug_flags() {
    assert_eq!(instance_layers(0, 2), vec!["VK_LAYER_LUNARG_monitor"]);
    assert_eq!(
        instance_layers(1, 0),
        vec!["VK_LAYER_LUNARG_monitor", "VK_LAYER_LUNARG_standard_validation"]
    );
    assert_eq!(
        instance_layers(1, 2),
        vec![
            "VK_LAYER_LUNARG_monitor",
            "VK_LAYER_LUNARG_standard_validation",
            "VK_LAYER_LUNARG_api_dump"
        ]
    );
    let required = vec!["VK_KHR_surface".to_string()];
    assert_eq!(instance_extensions(&required, 0), vec!["VK_KHR_surface"]);
    assert_eq!(
        instance_extensions(&required, 4),
        vec!["VK_KHR_surface", "VK_EXT_debug_report"]
    );
    assert_eq!(device_extensions(), vec!["VK_KHR_swapchain"]);
}

#[test]
fn command_buffer_usage_flags_combine() {
    assert_eq!(command_buffer_usage_flags(false, false, false), 0);
    assert_eq!(command_buffer_usage_flags(true, false, true), 5);
    assert_eq!(command_buffer_usage_flags(true, true, true), 7);
}
