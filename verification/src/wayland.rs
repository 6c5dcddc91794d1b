//! The core protocol interfaces.

pub mod wl_buffer;
pub mod wl_callback;
pub mod wl_compositor;
pub mod wl_data_source;
pub mod wl_display;
pub mod wl_output;
pub mod wl_region;
pub mod wl_registry;
pub mod wl_shell;
pub mod wl_shell_surface;
pub mod wl_shm;
pub mod wl_subsurface;
pub mod wl_surface;
