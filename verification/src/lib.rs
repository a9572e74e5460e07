//! Verified core of an X11 exposé-style window overview tool.
//!
//! The library holds the decision logic of the tool: extension capability
//! negotiation, the lifecycle of captured window surfaces, compositing plans
//! (scale transforms, filters, alpha masks), invalidation batching, grid and
//! desktop-bar geometry, and animation interpolation. Everything that talks
//! to the display server or the file system lives outside the library and
//! exchanges plain values with it.

pub mod errors;
pub mod negotiate;
pub mod surface;
pub mod compositor;
pub mod canvas;
pub mod dispatcher;
pub mod layout;
pub mod grid;
pub mod animation;
pub mod idmap;
pub mod desktop_state;
pub mod xdeskie;
pub mod desktop_bar;
pub mod input;
