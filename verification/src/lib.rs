//! Frame-synchronization and incremental geometry-streaming engine for an
//! interactive freehand drawing application.
//!
//! The library holds the verified core: the append-only geometry log with
//! input debouncing, the bounded staging / device-buffer streaming protocol
//! with its capacity guard, and the per-frame scheduling state machine that
//! survives surface invalidation. The GPU, windowing and configuration I/O
//! around this core live outside the library and only carry out the copy
//! operations and state transitions that the core hands them.

pub mod config;
pub mod demo;
pub mod device;
pub mod engine;
pub mod frame;
pub mod geom;
pub mod log;
pub mod staging;
