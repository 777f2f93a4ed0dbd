//! An interpreter core for CHIP-8 programs.

pub mod cycle;
pub mod execute;
pub mod fault;
pub mod framebuffer;
pub mod instruction;
pub mod laws;
pub mod loader;
pub mod machine;
pub mod paint;
pub mod semantics;
pub mod sprite;
