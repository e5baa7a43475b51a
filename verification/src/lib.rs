//! Windowing and rendering core of a retained-mode UI toolkit.
//!
//! The crate models per-window state: a double-buffered frame store,
//! reference-counted keyboard focus, a dispatch tree rebuilt every frame,
//! a capture/bubble event dispatcher with a multi-keystroke binding
//! matcher, and the two-phase (prepaint/paint) draw pipeline with
//! checkpoint/rollback transactions and cross-frame subtree reuse.
//!
//! Platform work (native windows, GPU presentation, timers) stays outside;
//! the library exposes the decisions as verified functions over plain data.

pub mod dispatch;
pub mod engine;
pub mod focus;
pub mod frame;
pub mod geom;
pub mod handle;
pub mod input;
pub mod keymap;
pub mod nav_history;
pub mod window;
