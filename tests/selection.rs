use engine::command_buffer::{VulkanCommandBuffer, TRIANGLE_VERTICES};
use engine::device::{
    check_physical_device, check_physical_device_extensions, device_extension_names, names_equal, pick_physical_device,
    AdapterInfo, QueueFamilyIndices, QueueFamilyInfo, SuitabilityError,
    Unsuitability,
};
use engine::error::{Capability, EngineError};
use engine::framebuffer::VulkanFramebuffer;
use engine::instance::{
    check_validation_layer, instance_extensions, message_level, needs_portability, ApiVersion,
    MessageLevel, VulkanInstance,
};
use engine::pipeline::{ShaderError, ShaderStage, VulkanPipeline};
use engine::swapchain::{
    choose_extent, choose_image_count, choose_present_mode, choose_surface_format,
    choose_swapchain_config, sharing_families, Extent2D, SurfaceCapabilities, SurfaceFormat, VulkanImage,
    PRESENT_MODE_FIFO, PRESENT_MODE_MAILBOX,
};

fn name(s: &str) -> Vec<u8> {
    s.as_bytes().to_vec()
}

fn family(graphics: bool, present: bool) -> QueueFamilyInfo {
    QueueFamilyInfo { graphics, present }
}

fn adapter(families: Vec<QueueFamilyInfo>, exts: &[&str], formats: usize, modes: usize) -> AdapterInfo {
    AdapterInfo {
        queue_families: families,
        extensions: exts.iter().map(|e| name(e)).collect(),
        format_count: formats,
        present_mode_count: modes,
    }
}

fn required() -> Vec<Vec<u8>> {
    vec![name("VK_KHR_swapchain")]
}

fn caps(min: u32, max: u32, lo: (u32, u32), hi: (u32, u32)) -> SurfaceCapabilities {
    SurfaceCapabilities {
        min_image_count: min,
        max_image_count: max,
        min_image_extent: Extent2D { width: lo.0, height: lo.1 },
        max_image_extent: Extent2D { width: hi.0, height: hi.1 },
    }
}

#[test]
fn queue_families_first_of_each() {
    let f = vec![family(false, true), family(true, false), family(true, true)];
    assert_eq!(QueueFamilyIndices::get(&f), Ok(QueueFamilyIndices { graphics: 1, present: 0 }));
}

#[test]
fn queue_families_missing_present() {
    let f = vec![family(true, false)];
    assert_eq!(
        QueueFamilyIndices::get(&f),
        Err(SuitabilityError(Unsuitability::QueueFamilies))
    );
    assert_eq!(
        QueueFamilyIndices::get(&vec![]),
        Err(SuitabilityError(Unsuitability::QueueFamilies))
    );
}

#[test]
fn unique_queue_families_dedupes() {
    assert_eq!(QueueFamilyIndices { graphics: 2, present: 2 }.unique(), vec![2]);
    assert_eq!(QueueFamilyIndices { graphics: 0, present: 3 }.unique(), vec![0, 3]);
}

#[test]
fn names_compare_bytewise() {
    assert!(names_equal(&name("abc"), &name("abc")));
    assert!(!names_equal(&name("abc"), &name("abd")));
    assert!(!names_equal(&name("abc"), &name("ab")));
}

#[test]
fn extension_subset_check() {
    let avail = vec![name("VK_KHR_other"), name("VK_KHR_swapchain")];
    assert_eq!(check_physical_device_extensions(&avail, &required()), Ok(()));
    assert_eq!(
        check_physical_device_extensions(&vec![name("VK_KHR_other")], &required()),
        Err(SuitabilityError(Unsuitability::DeviceExtensions))
    );
    assert_eq!(check_physical_device_extensions(&vec![], &vec![]), Ok(()));
}

#[test]
fn device_checks_run_in_order() {
    let no_queues = adapter(vec![family(true, false)], &[], 0, 0);
    assert_eq!(
        check_physical_device(&no_queues, &required()),
        Err(SuitabilityError(Unsuitability::QueueFamilies))
    );
    let no_ext = adapter(vec![family(true, true)], &[], 0, 0);
    assert_eq!(
        check_physical_device(&no_ext, &required()),
        Err(SuitabilityError(Unsuitability::DeviceExtensions))
    );
    let no_formats = adapter(vec![family(true, true)], &["VK_KHR_swapchain"], 0, 2);
    assert_eq!(
        check_physical_device(&no_formats, &required()),
        Err(SuitabilityError(Unsuitability::SwapchainSupport))
    );
    let no_modes = adapter(vec![family(true, true)], &["VK_KHR_swapchain"], 3, 0);
    assert_eq!(
        check_physical_device(&no_modes, &required()),
        Err(SuitabilityError(Unsuitability::SwapchainSupport))
    );
}

#[test]
fn first_suitable_adapter_wins() {
    let adapters = vec![
        adapter(vec![family(true, false)], &["VK_KHR_swapchain"], 1, 1),
        adapter(vec![family(true, true)], &["VK_KHR_swapchain"], 0, 1),
        adapter(vec![family(false, true), family(true, false)], &["VK_KHR_swapchain"], 2, 1),
        adapter(vec![family(true, true)], &["VK_KHR_swapchain"], 1, 1),
    ];
    let choice = pick_physical_device(&adapters, &required()).unwrap();
    assert_eq!(choice.index, 2);
    assert_eq!(choice.indices, QueueFamilyIndices { graphics: 1, present: 0 });
}

#[test]
fn no_suitable_adapter() {
    let adapters = vec![adapter(vec![family(true, true)], &[], 1, 1)];
    assert_eq!(pick_physical_device(&adapters, &required()), Err(EngineError::NoSuitableDevice));
    assert_eq!(pick_physical_device(&vec![], &required()), Err(EngineError::NoSuitableDevice));
}

#[test]
fn scenario_extent_from_window() {
    let c = caps(2, 8, (1, 1), (4096, 4096));
    assert_eq!(
        choose_extent(Extent2D { width: 1024, height: 768 }, &c),
        Extent2D { width: 1024, height: 768 }
    );
}

#[test]
fn extent_clamped_to_bounds() {
    let c = caps(2, 8, (200, 100), (800, 600));
    assert_eq!(
        choose_extent(Extent2D { width: 1024, height: 50 }, &c),
        Extent2D { width: 800, height: 100 }
    );
}

#[test]
fn image_count_rules() {
    assert_eq!(choose_image_count(&caps(2, 0, (1, 1), (9, 9))), 3);
    assert_eq!(choose_image_count(&caps(2, 8, (1, 1), (9, 9))), 3);
    assert_eq!(choose_image_count(&caps(3, 3, (1, 1), (9, 9))), 3);
}

#[test]
fn surface_format_preference() {
    let preferred = SurfaceFormat { format: 50, color_space: 0 };
    let other = SurfaceFormat { format: 44, color_space: 0 };
    let near = SurfaceFormat { format: 50, color_space: 1 };
    assert_eq!(choose_surface_format(&vec![other, near, preferred]), preferred);
    assert_eq!(choose_surface_format(&vec![near, other]), near);
}

#[test]
fn present_mode_preference() {
    assert_eq!(choose_present_mode(&vec![0, 2, 1]), PRESENT_MODE_MAILBOX);
    assert_eq!(choose_present_mode(&vec![0, 2, 3]), PRESENT_MODE_FIFO);
    assert_eq!(choose_present_mode(&vec![]), PRESENT_MODE_FIFO);
}

#[test]
fn swapchain_config_combines_choices() {
    let c = caps(2, 0, (1, 1), (4096, 4096));
    let formats = vec![SurfaceFormat { format: 44, color_space: 0 }];
    let cfg = choose_swapchain_config(Extent2D { width: 640, height: 480 }, &c, &formats, &vec![2]);
    assert_eq!(cfg.format, formats[0]);
    assert_eq!(cfg.present_mode, PRESENT_MODE_FIFO);
    assert_eq!(cfg.extent, Extent2D { width: 640, height: 480 });
    assert_eq!(cfg.image_count, 3);
}

#[test]
fn resource_counts_match() {
    let extent = Extent2D { width: 1024, height: 768 };
    let views = VulkanImage::views(3, 50);
    let fbs = VulkanFramebuffer::create(&views, extent);
    let cbs = VulkanCommandBuffer::create_command_buffers(&fbs);
    assert_eq!(views.len(), 3);
    assert_eq!(fbs.len(), 3);
    assert_eq!(cbs.len(), 3);
    for i in 0..3 {
        assert_eq!(views[i], VulkanImage { image: i, format: 50 });
        assert_eq!(fbs[i].image_view, i);
        assert_eq!((fbs[i].width, fbs[i].height, fbs[i].layers), (1024, 768, 1));
        assert_eq!(cbs[i].framebuffer, i);
        assert_eq!((cbs[i].vertex_count, cbs[i].instance_count), (TRIANGLE_VERTICES, 1));
        assert_eq!((cbs[i].first_vertex, cbs[i].first_instance), (0, 0));
    }
}

#[test]
fn command_pool_uses_graphics_family() {
    let q = QueueFamilyIndices { graphics: 4, present: 1 };
    assert_eq!(VulkanCommandBuffer::create_command_pool(&q), 4);
}

#[test]
fn scenario_missing_validation_layer() {
    let layer = name("VK_LAYER_KHRONOS_validation");
    assert_eq!(
        check_validation_layer(&vec![name("VK_LAYER_other")], &layer, true),
        Err(EngineError::MissingCapability(Capability::ValidationLayer))
    );
    assert_eq!(check_validation_layer(&vec![], &layer, false), Ok(()));
    assert_eq!(check_validation_layer(&vec![layer.clone()], &layer, true), Ok(()));
}

#[test]
fn instance_extension_list() {
    let platform = vec![name("VK_KHR_surface"), name("VK_KHR_xlib_surface")];
    let port = vec![name("VK_KHR_get_physical_device_properties2"), name("VK_KHR_portability_enumeration")];
    let debug = name("VK_EXT_debug_utils");
    assert_eq!(instance_extensions(&platform, &port, &debug, false, false), platform);
    let all = instance_extensions(&platform, &port, &debug, true, true);
    assert_eq!(all, vec![platform[0].clone(), platform[1].clone(), port[0].clone(), port[1].clone(), debug.clone()]);
    let dbg = instance_extensions(&platform, &port, &debug, false, true);
    assert_eq!(dbg, vec![platform[0].clone(), platform[1].clone(), debug]);
}

#[test]
fn portability_needs_macos_and_version() {
    let v = |a, b, c| ApiVersion { major: a, minor: b, patch: c };
    assert!(needs_portability(true, v(1, 3, 216)));
    assert!(needs_portability(true, v(1, 4, 0)));
    assert!(needs_portability(true, v(2, 0, 0)));
    assert!(!needs_portability(true, v(1, 3, 215)));
    assert!(!needs_portability(true, v(1, 2, 300)));
    assert!(!needs_portability(false, v(1, 3, 216)));
}

#[test]
fn message_levels_by_severity() {
    assert_eq!(message_level(0x1000), MessageLevel::Error);
    assert_eq!(message_level(0x100), MessageLevel::Warning);
    assert_eq!(message_level(0x10), MessageLevel::Info);
    assert_eq!(message_level(0x1), MessageLevel::Trace);
}

#[test]
fn shader_bytecode_length_checked() {
    assert_eq!(VulkanPipeline::create_shader_module(&[]).err(), Some(ShaderError::Length(0)));
    assert_eq!(VulkanPipeline::create_shader_module(&[1, 2, 3, 4, 5, 6]).err(), Some(ShaderError::Length(6)));
    let ok = VulkanPipeline::create_shader_module(&[3, 2, 35, 7, 0, 0, 1, 0]).unwrap();
    assert_eq!(ok.code_size(), 8);
    assert_eq!(ok.code().len(), 2);
}

#[test]
fn shaders_checked_vertex_first() {
    let good = [0u8; 8];
    assert!(VulkanPipeline::load_shaders(&good, &good).is_ok());
    assert_eq!(VulkanPipeline::load_shaders(&[0u8; 3], &[0u8; 5]).err(), Some(ShaderError::Length(3)));
    assert_eq!(VulkanPipeline::load_shaders(&good, &[0u8; 5]).err(), Some(ShaderError::Length(5)));
}

#[test]
fn pipeline_follows_swapchain() {
    let e = Extent2D { width: 800, height: 600 };
    let p = VulkanPipeline::create(50, e);
    assert_eq!(p.extent, e);
    assert_eq!(p.vertex_stage, ShaderStage { stage: 0x1 });
    assert_eq!(p.fragment_stage, ShaderStage { stage: 0x10 });
    assert_eq!((p.topology, p.primitive_restart), (3, false));
    assert_eq!((p.polygon_mode, p.cull_mode, p.front_face), (0, 0x2, 1));
    assert!(!p.depth_clamp && !p.rasterizer_discard && !p.depth_bias && !p.sample_shading);
    assert_eq!((p.samples, p.subpass), (1, 0));
}

#[test]
fn pipeline_blends_source_over() {
    let b = VulkanPipeline::create(50, Extent2D { width: 1, height: 1 }).blend;
    assert!(b.blend_enable);
    assert_eq!((b.src_color_blend_factor, b.dst_color_blend_factor, b.color_blend_op), (6, 7, 0));
    assert_eq!((b.src_alpha_blend_factor, b.dst_alpha_blend_factor, b.alpha_blend_op), (1, 0, 0));
    assert_eq!(b.color_write_mask, 0xF);
    assert!(!b.logic_op_enable);
}

#[test]
fn render_pass_single_color_attachment() {
    let r = VulkanPipeline::create(44, Extent2D { width: 1, height: 1 }).render_pass;
    assert_eq!((r.attachment_count, r.subpass_count), (1, 1));
    assert_eq!((r.format, r.samples), (44, 1));
    assert_eq!((r.load_op, r.store_op), (1, 0));
    assert_eq!((r.stencil_load_op, r.stencil_store_op), (2, 1));
    assert_eq!((r.initial_layout, r.final_layout), (0, 1000001002));
    assert_eq!((r.subpass_bind_point, r.subpass_attachment, r.subpass_layout), (0, 0, 2));
}

#[test]
fn instance_requires_validation_layer() {
    let layer = name("VK_LAYER_KHRONOS_validation");
    let platform = vec![name("VK_KHR_surface")];
    let debug = name("VK_EXT_debug_utils");
    let missing = VulkanInstance::new(&vec![], &layer, &platform, &vec![], &debug, false, true);
    assert_eq!(
        missing.err(),
        Some(EngineError::MissingCapability(Capability::ValidationLayer))
    );
    let with = VulkanInstance::new(&vec![layer.clone()], &layer, &platform, &vec![], &debug, false, true)
        .unwrap();
    assert_eq!(with.layers, vec![layer.clone()]);
    assert_eq!(with.extensions, vec![platform[0].clone(), debug.clone()]);
    let without = VulkanInstance::new(&vec![], &layer, &platform, &vec![], &debug, false, false).unwrap();
    assert!(without.layers.is_empty());
    assert_eq!(without.extensions, platform);
}

#[test]
fn swapchain_sharing_by_family() {
    assert!(sharing_families(&QueueFamilyIndices { graphics: 1, present: 1 }).is_empty());
    assert_eq!(sharing_families(&QueueFamilyIndices { graphics: 0, present: 2 }), vec![0, 2]);
}

#[test]
fn device_extensions_with_portability() {
    let subset = name("VK_KHR_portability_subset");
    assert_eq!(device_extension_names(&required(), &subset, false), required());
    assert_eq!(
        device_extension_names(&required(), &subset, true),
        vec![name("VK_KHR_swapchain"), subset.clone()]
    );
}
