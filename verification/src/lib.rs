//! Scene logic of a two-triangle perspective demo: the index buffers of the
//! meshes, the vertex layout, the animation schedule, the frame-rate counter
//! and the decisions the render loop takes on window and surface events.

pub mod app;
pub mod camera;
pub mod fps;
pub mod state;
pub mod vertices;
