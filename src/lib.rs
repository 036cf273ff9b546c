//! A fixed-tick simulation scheduler decoupled from a variable presentation
//! frame rate, with the shader-composition and animation helpers around it.
//!
//! Time is measured in integer clock units (for example microseconds): every
//! quantity that the scheduler decides on is exact.

pub mod timeline;
pub mod world;
pub mod physics;
pub mod transfer;
pub mod scheduler;
pub mod fixed_tick;
pub mod lerp;
pub mod animation;
pub mod dither;
pub mod palette_lighting;
pub mod sdf_3d;
pub mod stack_machine;
pub mod shader_composer;
