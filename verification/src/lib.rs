//! The core of a small real-time rendering host: which render configuration is
//! active, how window events change the state, and what each frame records.
//!
//! Nothing here talks to a window or a GPU. The host hands in plain values
//! (sizes, events, the outcome of acquiring a frame) and gets back plain
//! values that say what to create, configure, draw or do next.

pub mod buffers;
pub mod color;
pub mod event;
pub mod event_loop;
pub mod memory;
pub mod pipeline;
pub mod pipeline_creator;
pub mod renders;
pub mod swapchain;
pub mod texture;
