//! Host-side orchestration of a GPU compositing pipeline: packing layer
//! pixel data into a device-uploadable form, sizing the device buffers,
//! planning the kernel's argument binding and dispatch dimensions, driving
//! one composite request through its linear state machine, and unpacking
//! the composited result into raw image bytes. The per-pixel blend rule
//! itself runs on the device and is an opaque collaborator: this library
//! guarantees the layout, sizing, ordering and error handling around it.

pub mod codec;
pub mod dispatch;
pub mod error;
pub mod pipeline;
pub mod stage;
