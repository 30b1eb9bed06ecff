//! A minimal triangle-rendering demo, split so that its decisions are
//! verified: the fixed vertex data, the shader dialect selection, the
//! keyboard/close event handling, and the per-frame command sequence are
//! all stated and proved here, while the platform window and the GPU
//! driver are driven by a thin unverified shell.

pub mod bootstrap;
pub mod events;
pub mod render;
pub mod shader;
pub mod vertex;

