//! Frame synchronization, swapchain lifecycle and GPU buffer model of a
//! Vulkan renderer, stated over plain values and proved with Verus.
//!
//! The device calls themselves (buffer allocation, fence waits, queue
//! submission, presentation) are made by the application around this
//! library; the library decides what is called, in which order, and with
//! which handles.

pub mod buffer;
pub mod command_pools;
pub mod device;
pub mod driver;
pub mod index_buffer;
pub mod lifecycle;
pub mod mesh;
pub mod pipeline;
pub mod recording;
pub mod release;
pub mod renderable;
pub mod swapchain;
pub mod vertex_buffer;
