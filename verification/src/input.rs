//! Keyboard input and the camera movement it asks for.
use vstd::prelude::*;
use crate::vector::{Vec3, UNIT};

verus! {

/// The keys that the renderer tells apart.
#[derive(Clone, Copy, Debug, PartialEq, Eq, Structural)]
pub enum Key {
    W,
    Escape,
    /// Any other key.
    Other,
}

/// Whether a key went down or came up.
#[derive(Clone, Copy, Debug, PartialEq, Eq, Structural)]
pub enum ElementState {
    Pressed,
    Released,
}

/// One keyboard event. `virtual_keycode` is `None` for a key that has no
/// meaning of its own.
#[derive(Clone, Copy, Debug, PartialEq, Eq, Structural)]
pub struct KeyboardInput {
    pub state: ElementState,
    pub virtual_keycode: Option<Key>,
}

/// The displacement of the camera that a keyboard event asks for: one
/// unit along the x axis when `W` goes down, nothing otherwise.
pub open spec fn camera_movement_of(input: KeyboardInput) -> Vec3 {
    if input.state == ElementState::Pressed && input.virtual_keycode == Some(Key::W) {
        Vec3 { x: UNIT, y: 0, z: 0 }
    } else {
        Vec3 { x: 0, y: 0, z: 0 }
    }
}

/// True when the event asks for the loop to end: `Escape` went down.
pub open spec fn asks_to_exit(input: KeyboardInput) -> bool {
    input.state == ElementState::Pressed && input.virtual_keycode == Some(Key::Escape)
}

/// True when the event moves the camera.
pub open spec fn moves_camera(input: KeyboardInput) -> bool {
    input.state == ElementState::Pressed && input.virtual_keycode == Some(Key::W)
}

/// The displacement of the camera that `input` asks for.
pub fn camera_movement(input: KeyboardInput) -> (r: Vec3)
    ensures
        r == camera_movement_of(input),
        moves_camera(input) <==> r != (Vec3 { x: 0, y: 0, z: 0 }),
{
    let mut movement = Vec3::zero();
    match input {
        KeyboardInput { state: ElementState::Pressed, virtual_keycode: Some(Key::W) } => {
            movement.x = movement.x + UNIT;
        },
        _ => {},
    }
    movement
}

/// Tells whether `input` asks for the loop to end.
pub fn is_exit_request(input: KeyboardInput) -> (r: bool)
    ensures
        r == asks_to_exit(input),
{
    match input {
        KeyboardInput { state: ElementState::Pressed, virtual_keycode: Some(Key::Escape) } => true,
        _ => false,
    }
}

/// Tells whether `input` moves the camera.
pub fn is_camera_movement(input: KeyboardInput) -> (r: bool)
    ensures
        r == moves_camera(input),
{
    match input {
        KeyboardInput { state: ElementState::Pressed, virtual_keycode: Some(Key::W) } => true,
        _ => false,
    }
}

} // verus!
