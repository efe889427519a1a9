//! Core logic of a minimal real-time renderer that shows one animated disc
//! through an explicit graphics API.
//!
//! The verified library holds everything the program decides or computes on
//! plain values: the bouncing-disc animation rule, the swapchain planning
//! policy (format, present mode, extent, image count), the teardown ordering
//! that recreation must follow, the per-frame state machine with its
//! out-of-date recovery, queue-family and memory-type selection, the pipeline
//! and render-pass configuration, and the frames-per-second title line.
//! The unverified executable around it performs the actual GPU and window
//! calls and feeds their results back in as plain values.

pub mod animation;
pub mod device;
pub mod fps;
pub mod pipeline;
pub mod renderer;
pub mod surface;
pub mod swapchain;
