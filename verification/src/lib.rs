//! A minimal real-time software-rendering host core.
//!
//! The library owns the verified logic of the host: the resizable CPU
//! pixel surface and its allocator, the placeholder gradient fill, the
//! presenter's blit parameters, keyboard edge latching, controller stick
//! accumulation, the window event state machine, the audio handshake
//! state machine, and the per-frame step that composes them. The
//! platform plumbing around it (window creation, message pump, device
//! contexts, driver loading) stays outside and hands this library plain
//! values.

pub mod audio;
pub mod events;
pub mod frame;
pub mod gradient;
pub mod input;
pub mod present;
pub mod surface;

pub use surface::PixelSurface;
