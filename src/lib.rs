//! Spatiotemporal lighting engine core: double-buffered frame resources,
//! GPU record packing, hit encoding, reservoir resampling and the per-frame
//! pass sequencer.
pub mod buffers;
pub mod bufferable;
pub mod double_buffered;
pub mod gpu;
pub mod hit;
pub mod light;
pub mod passes;
pub mod resampling;
pub mod reservoir;
