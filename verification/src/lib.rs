//! The verified core of a small real-time renderer: poses and the
//! transforms they stand for, a camera that composes them into a
//! model-view-projection product, and the state machine that sequences
//! frames, resizes and error recovery.
//!
//! All arithmetic here is exact. A transform is handed out as a list of
//! elementary factors in multiplication order; turning that list into
//! floating-point numbers for the graphics device is left to the caller.
pub mod camera;
pub mod error;
pub mod factor;
pub mod frame;
pub mod input;
pub mod mesh;
pub mod pipeline;
pub mod projection;
pub mod space;
pub mod state;
pub mod transformation_matrix;
pub mod vector;

pub use camera::Camera;
pub use error::{Recovery, RenderError, SurfaceError};
pub use factor::{extend_product, invert_product, Elementary, Factor};
pub use frame::{frame_sequence, BindGroup, Frame, FrameStep, PresentMode, SurfaceConfiguration};
pub use input::{camera_movement, ElementState, Key, KeyboardInput};
pub use mesh::{index_buffer, IndexBuffer};
pub use pipeline::{bind_group_layout, pipeline_layout, setup_order, BindingType, LayoutEntry, Resource, ShaderStage};
pub use projection::Projection;
pub use state::{handle_keyboard_input, Action, Event, Phase, State};
pub use transformation_matrix::TransformationMatrix;
pub use vector::{saturating_sum, Vec3, UNIT};
