//! A batched 2D renderer core: callers submit points, lines, triangles,
//! rectangles and textured quads; the engine accumulates them into shared
//! vertex/index buffer segments and emits GPU commands only when a state
//! change (texture or topology switch, buffer exhaustion) or the end of a
//! frame forces a flush. The engine itself never talks to the GPU: every
//! operation returns the list of [`commands::GpuCommand`]s an executor must
//! perform, in order.

pub mod commands;
pub mod context;
pub mod engine;
pub mod laws;
pub mod model;
pub mod shader;
pub mod stuff;
pub mod texture;
pub mod typeinfo;
pub mod types;

pub use context::{DrawContext, DrawRectParams, DrawTriangleParams};
pub use engine::DrawEngine;
pub use texture::Texture;
pub use types::{Color, Point, Rect, TexCoord, Topology, Vertex};
