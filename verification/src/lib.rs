//! Host-side core of a volumetric-cloud compute pipeline.
//!
//! The library models the scheduling and data-marshalling logic that drives a
//! GPU compute shader which paints a cloud layer into a set of storage
//! textures: the two-phase pipeline state machine, the per-frame uniform-block
//! assembly (including the cross-frame wind-displacement accumulator), the
//! fixed texture and bind-group layouts, and the render-graph ordering edge
//! that sequences the compute work before the main camera draw.
//!
//! The GPU itself, the windowing host and the asset loader are outside
//! collaborators: the surrounding application polls them and hands their
//! answers to this library as plain values, then carries the library's
//! decisions (which pipeline to dispatch, over which workgroup grid, with
//! which buffer contents) back to the device.
//!
//! Real-valued quantities appear in two forms. Scalars that the host merely
//! copies into the uniform block (coverage, scattering factors, colors,
//! matrices, ...) are carried as raw 32-bit patterns and never interpreted, so
//! the copy contract is exact. The wind velocity, the frame delta time and the
//! wind-displacement accumulator — the only quantities this core does
//! arithmetic on — use exact fixed-point integers: velocity in micro-units per
//! second, time in microseconds, displacement in pico-units.

pub mod bind_groups;
pub mod camera;
pub mod config;
pub mod graph;
pub mod images;
pub mod node;
pub mod pipeline;
pub mod scalar;
pub mod uniform;
pub mod wind;
