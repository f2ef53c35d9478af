//! Application configuration: recognized options and their embedded
//! defaults.
//!
//! Loading a configuration file and deserializing it are the surrounding
//! code's job; the library only defines the plain option values the core
//! consumes, the defaults used when no file is found, and the validity
//! conditions the streaming and scheduling components rely on.

use vstd::prelude::*;

verus! {

/// Window options.
#[derive(Debug, Clone)]
pub struct WindowConfig {
    pub title: String,
    pub width: u32,
    pub height: u32,
}

/// Rendering options.
#[derive(Debug, Clone)]
pub struct VulkanConfig {
    pub validation_enabled: bool,
    pub max_frames_in_flight: usize,
    /// Device buffer capacity, in segments.
    pub max_vertices: u32,
    /// Staging capacity, in segments; also the per-cycle batch size.
    pub staging_buffer_vertex_count: u32,
}

/// Paths to precompiled shader bytecode.
#[derive(Debug, Clone)]
pub struct ShaderConfig {
    pub vertex: String,
    pub fragment: String,
}

/// The full configuration.
#[derive(Debug, Clone)]
pub struct Config {
    pub window: WindowConfig,
    pub vulkan: VulkanConfig,
    pub shaders: ShaderConfig,
}

impl VulkanConfig {
    /// What the streaming engine and the frame scheduler require of the
    /// configured limits.
    pub open spec fn spec_valid(&self) -> bool {
        &&& self.staging_buffer_vertex_count >= 1
        &&& self.max_frames_in_flight >= 1
    }

    /// Runtime check of [`VulkanConfig::spec_valid`].
    pub fn is_valid(&self) -> (r: bool)
        ensures
            r == self.spec_valid(),
    {
        self.staging_buffer_vertex_count >= 1 && self.max_frames_in_flight >= 1
    }
}

impl Default for WindowConfig {
    /// Embedded default window options.
    fn default() -> (r: WindowConfig)
        ensures
            r.title@ == "Scribble"@,
            r.width == 1024,
            r.height == 768,
    {
        WindowConfig { title: "Scribble".to_owned(), width: 1024, height: 768 }
    }
}

impl Default for VulkanConfig {
    /// Embedded default rendering options.
    fn default() -> (r: VulkanConfig)
        ensures
            !r.validation_enabled,
            r.max_frames_in_flight == 2,
            r.max_vertices == 65536,
            r.staging_buffer_vertex_count == 1024,
            r.spec_valid(),
    {
        VulkanConfig {
            validation_enabled: false,
            max_frames_in_flight: 2,
            max_vertices: 65536,
            staging_buffer_vertex_count: 1024,
        }
    }
}

impl Default for ShaderConfig {
    /// Embedded default shader paths.
    fn default() -> (r: ShaderConfig)
        ensures
            r.vertex@ == "shaders/vert.spv"@,
            r.fragment@ == "shaders/frag.spv"@,
    {
        ShaderConfig {
            vertex: "shaders/vert.spv".to_owned(),
            fragment: "shaders/frag.spv".to_owned(),
        }
    }
}

impl Default for Config {
    /// The embedded default configuration, used when no configuration file
    /// is found.
    fn default() -> (r: Config)
        ensures
            r.window.title@ == "Scribble"@,
            r.window.width == 1024,
            r.window.height == 768,
            !r.vulkan.validation_enabled,
            r.vulkan.max_frames_in_flight == 2,
            r.vulkan.max_vertices == 65536,
            r.vulkan.staging_buffer_vertex_count == 1024,
            r.vulkan.spec_valid(),
            r.shaders.vertex@ == "shaders/vert.spv"@,
            r.shaders.fragment@ == "shaders/frag.spv"@,
    {
        Config {
            window: Default::default(),
            vulkan: Default::default(),
            shaders: Default::default(),
        }
    }
}

} // verus!
