//! The verified core of a small real-time renderer: byte-exact layouts of the
//! values handed to the GPU, mesh ingestion, cubemap assembly, the frame clock
//! and the per-frame state machine.
//!
//! Floating-point values are carried as their IEEE-754 bit patterns (`u32`);
//! the library moves and lays them out but never computes on them.

pub mod layout;
pub mod error;
pub mod vertex;
pub mod resource;
pub mod texture;
pub mod camera;
pub mod uniform;
pub mod pipeline;
pub mod app_state;
