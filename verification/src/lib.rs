//! A minimal tiling window manager engine.
//!
//! The library holds the pure logic of the manager: the managed-window and
//! focus state machine, the master-stack tiling arithmetic, key-binding
//! resolution over a keyboard mapping, the graceful-close protocol decision,
//! and the per-event dispatch. Everything that talks to a display server or
//! spawns helper processes lives outside the library and hands it plain
//! values.

pub mod keys;
pub mod layout;
pub mod state;
pub mod volume;
pub mod wm;
