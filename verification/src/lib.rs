//! GPU bootstrap and one-shot compute dispatch, with the decisions verified.
//!
//! The host enumerates adapters, opens the window, creates the GPU objects
//! and writes the file. What it finds it reports to this library, and every
//! choice comes from here: which adapter and queue family, which swapchain,
//! what a dispatch allocates and records, when the buffer may be read, and
//! what is written out.

pub mod context;
pub mod dispatch;
pub mod element;
pub mod engine;
pub mod readback;
pub mod renderer;
pub mod vulkan;
