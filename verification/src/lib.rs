//! A bridge between a headless NES engine and a frame-driven host frontend.
//!
//! The library holds the part of the bridge that decides and computes: the
//! lifecycle of the optional console, the repacking of the engine's pixels
//! into the host's framebuffer, and the assembly of the controller state.
//! Host callbacks and file access are left to the caller.

pub mod libretro_device;
pub mod engine;
pub mod emulator;
