use scribble::config::{Config, ShaderConfig, VulkanConfig, WindowConfig};
use scribble::demo::DemoConfig;

#[test]
fn embedded_defaults() {
    let config = Config::default();
    assert_eq!(config.window.title, "Scribble");
    assert_eq!(config.window.width, 1024);
    assert_eq!(config.window.height, 768);
    assert!(!config.vulkan.validation_enabled);
    assert_eq!(config.vulkan.max_frames_in_flight, 2);
    assert_eq!(config.vulkan.max_vertices, 65536);
    assert_eq!(config.vulkan.staging_buffer_vertex_count, 1024);
    assert_eq!(config.shaders.vertex, "shaders/vert.spv");
    assert_eq!(config.shaders.fragment, "shaders/frag.spv");
}

#[test]
fn component_defaults_match() {
    let window = WindowConfig::default();
    assert_eq!(window.title, "Scribble");
    let vulkan = VulkanConfig::default();
    assert!(vulkan.is_valid());
    let shaders = ShaderConfig::default();
    assert_eq!(shaders.vertex, "shaders/vert.spv");
    let demo = DemoConfig::default();
    assert_eq!(demo.initial_model_count, 1);
    assert_eq!(demo.max_models, 4);
    assert!(!demo.enable_model_spawning);
    assert!(!demo.enable_rotation);
}

#[test]
fn validity_checks_limits() {
    let mut vulkan = VulkanConfig::default();
    vulkan.staging_buffer_vertex_count = 0;
    assert!(!vulkan.is_valid());
    let mut vulkan = VulkanConfig::default();
    vulkan.max_frames_in_flight = 0;
    assert!(!vulkan.is_valid());
}
