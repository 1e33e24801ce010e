//! Planning core of a small instanced-cube renderer: what to build, what to
//! bind and what to record each frame, as plain values.

pub mod binding;
pub mod buffer;
pub mod depth_view;
pub mod frame;
pub mod instances;
pub mod mesh;
pub mod pass;
pub mod pipeline;
pub mod rotator;
pub mod scene;
pub mod state;
pub mod surface;
