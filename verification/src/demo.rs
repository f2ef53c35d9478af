//! The demo-scene controller: a bounded model count stepped by keyboard
//! input.
//!
//! Key events arrive as plain values; mapping the window system's key codes
//! onto them is the surrounding code's job, as is turning the controller's
//! state into per-model transforms for drawing.

use vstd::prelude::*;

verus! {

/// Demo-scene options.
#[derive(Debug, Clone, Copy, PartialEq, Eq, Structural)]
pub struct DemoConfig {
    pub initial_model_count: usize,
    pub max_models: usize,
    pub enable_model_spawning: bool,
    pub enable_rotation: bool,
}

impl Default for DemoConfig {
    /// Embedded default demo options.
    fn default() -> (r: DemoConfig)
        ensures
            r.initial_model_count == 1,
            r.max_models == 4,
            !r.enable_model_spawning,
            !r.enable_rotation,
    {
        DemoConfig {
            initial_model_count: 1,
            max_models: 4,
            enable_model_spawning: false,
            enable_rotation: false,
        }
    }
}

/// A key event, as far as the controller cares.
#[derive(Debug, Clone, Copy, PartialEq, Eq, Structural)]
pub enum DemoKey {
    /// Remove one model.
    PrevModel,
    /// Add one model.
    NextModel,
    /// Anything else.
    Other,
}

/// Keeps the number of displayed demo models within its configured bounds.
#[derive(Debug, Clone)]
pub struct DemoController {
    pub model_count: usize,
    pub max_models: usize,
    pub enable_spawning: bool,
    pub enable_rotation: bool,
}

impl DemoController {
    pub fn new(config: &DemoConfig) -> (r: DemoController)
        ensures
            r.model_count == config.initial_model_count,
            r.max_models == config.max_models,
            r.enable_spawning == config.enable_model_spawning,
            r.enable_rotation == config.enable_rotation,
    {
        DemoController {
            model_count: config.initial_model_count,
            max_models: config.max_models,
            enable_spawning: config.enable_model_spawning,
            enable_rotation: config.enable_rotation,
        }
    }

    /// Handles one key event; returns whether the model count changed. The
    /// count never leaves `1 ..= max_models` through this step, and nothing
    /// changes while spawning is disabled.
    pub fn handle_key(&mut self, key: DemoKey) -> (changed: bool)
        ensures
            changed == (old(self).enable_spawning && ((key is PrevModel && old(self).model_count
                > 1) || (key is NextModel && old(self).model_count < old(self).max_models))),
            final(self).model_count == (if old(self).enable_spawning && key is PrevModel && old(
                self,
            ).model_count > 1 {
                old(self).model_count - 1
            } else if old(self).enable_spawning && key is NextModel && old(self).model_count < old(
                self,
            ).max_models {
                old(self).model_count + 1
            } else {
                old(self).model_count as int
            }),
            final(self).max_models == old(self).max_models,
            final(self).enable_spawning == old(self).enable_spawning,
            final(self).enable_rotation == old(self).enable_rotation,
    {
        if !self.enable_spawning {
            return false;
        }
        match key {
            DemoKey::PrevModel => {
                if self.model_count > 1 {
                    self.model_count = self.model_count - 1;
                    true
                } else {
                    false
                }
            },
            DemoKey::NextModel => {
                if self.model_count < self.max_models {
                    self.model_count = self.model_count + 1;
                    true
                } else {
                    false
                }
            },
            DemoKey::Other => false,
        }
    }
}

} // verus!
