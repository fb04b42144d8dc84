//! Doom in the terminal: the verified decisions behind the input bridge,
//! the frame hand-off between the engine thread and the renderer, and the
//! IWAD search.

pub mod input;
pub mod mouse_aim;
pub mod keymap;
pub mod doom_thread;
pub mod wad;
pub mod plugin;
pub mod gpu;
