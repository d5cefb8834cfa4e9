//! The render loop as a state machine.
//!
//! The caller owns the window and the graphics device. It reports what
//! happened, and is told what to do next.
use vstd::prelude::*;
use crate::camera::Camera;
use crate::error::{Recovery, RenderError, SurfaceError};
use crate::factor::{extend_product, Factor};
use crate::frame::{frame_sequence, frame_sequence_of, Frame, PresentMode, SurfaceConfiguration};
use crate::input::{
    asks_to_exit, camera_movement, camera_movement_of, is_camera_movement, is_exit_request,
    moves_camera, ElementState, Key, KeyboardInput,
};
use crate::projection::Projection;
use crate::transformation_matrix::TransformationMatrix;
use crate::vector::{Vec3, UNIT};

verus! {

/// Where the render loop stands.
#[derive(Clone, Copy, Debug, PartialEq, Eq, Structural)]
pub enum Phase {
    /// The resources of the device are not there yet.
    Uninitialized,
    /// Between two frames.
    Ready,
    /// A frame has been started and not yet finished.
    Rendering,
    /// The loop has ended.
    Terminated,
}

/// What the window reports.
#[derive(Clone, Copy, Debug, PartialEq, Eq, Structural)]
pub enum Event {
    CloseRequested,
    KeyPress(Key),
    KeyRelease(Key),
    /// The window has a new width and height.
    Resized(u32, u32),
    RedrawRequested,
}

impl Event {
    /// The keyboard event that a key press or release stands for.
    pub open spec fn keyboard_input(self) -> Option<KeyboardInput> {
        match self {
            Event::KeyPress(key) => Some(
                KeyboardInput { state: ElementState::Pressed, virtual_keycode: Some(key) },
            ),
            Event::KeyRelease(key) => Some(
                KeyboardInput { state: ElementState::Released, virtual_keycode: Some(key) },
            ),
            _ => None,
        }
    }

    /// The keyboard event that a key press or release stands for.
    pub fn as_keyboard_input(&self) -> (r: Option<KeyboardInput>)
        ensures
            r == self.keyboard_input(),
    {
        match self {
            Event::KeyPress(key) => Some(
                KeyboardInput { state: ElementState::Pressed, virtual_keycode: Some(*key) },
            ),
            Event::KeyRelease(key) => Some(
                KeyboardInput { state: ElementState::Released, virtual_keycode: Some(*key) },
            ),
            _ => None,
        }
    }
}

/// What the caller is to do next.
#[derive(Clone, Copy, Debug, PartialEq, Eq, Structural)]
pub enum Action {
    /// Nothing.
    Idle,
    /// Leave the loop.
    Exit,
    /// Configure the surface for this width and height.
    Reconfigure { width: u32, height: u32 },
    /// Call `render` and carry out the frame it hands out.
    Render,
}

/// The field of view of the camera at start: a quarter turn.
pub const INITIAL_FOVY: i64 = 90_000;

/// The near plane at start: a tenth of a unit.
pub const INITIAL_NEAR: i64 = 100;

/// The far plane at start: ten units.
pub const INITIAL_FAR: i64 = 10_000;

/// The distance of the camera from the origin at start: two units.
pub const INITIAL_CAMERA_DISTANCE: i64 = 2_000;

/// What a `State` stands for.
pub struct StateView {
    pub phase: Phase,
    /// The size of the window.
    pub width: u32,
    pub height: u32,
    /// The number of indices of the mesh.
    pub num_indices: u32,
    pub camera: Camera,
}

impl StateView {
    /// The state at start, for a window of the size given: the model at
    /// the origin, the camera two units up the z axis, both of them not
    /// turned.
    pub open spec fn initial(width: u32, height: u32, num_indices: u32) -> StateView {
        StateView {
            phase: Phase::Uninitialized,
            width,
            height,
            num_indices,
            camera: Camera {
                model_transform: TransformationMatrix::identity_pose(),
                camera_transform: TransformationMatrix {
                    position: Vec3 { x: 0, y: 0, z: INITIAL_CAMERA_DISTANCE },
                    ..TransformationMatrix::identity_pose()
                },
                projection: Projection {
                    fovy: INITIAL_FOVY,
                    aspect_width: width,
                    aspect_height: height,
                    near: INITIAL_NEAR,
                    far: INITIAL_FAR,
                },
            },
        }
    }

    /// True when there is a surface: between the end of the setup and the
    /// end of the loop.
    pub open spec fn has_surface(self) -> bool {
        self.phase == Phase::Ready || self.phase == Phase::Rendering
    }

    /// The state with the phase replaced.
    pub open spec fn in_phase(self, phase: Phase) -> StateView {
        StateView { phase, ..self }
    }

    /// The state after the window took a new size: the size is stored and
    /// becomes the aspect ratio of the projection; the rest is kept.
    pub open spec fn resized(self, width: u32, height: u32) -> StateView {
        StateView {
            width,
            height,
            camera: Camera {
                projection: Projection {
                    aspect_width: width,
                    aspect_height: height,
                    ..self.camera.projection
                },
                ..self.camera
            },
            ..self
        }
    }

    /// The state after the camera moved as `input` asks.
    pub open spec fn moved(self, input: KeyboardInput) -> StateView {
        StateView {
            camera: Camera {
                camera_transform: self.camera.camera_transform.translated(
                    camera_movement_of(input),
                ),
                ..self.camera
            },
            ..self
        }
    }

    /// True when `event` is a keyboard event that moves the camera, and
    /// the loop has not ended.
    pub open spec fn consumes(self, event: Event) -> bool {
        &&& self.phase != Phase::Terminated
        &&& event.keyboard_input() matches Some(input)
        &&& moves_camera(input)
    }

    /// The state after `input` was taken in.
    pub open spec fn after_input(self, event: Event) -> StateView {
        if self.consumes(event) {
            self.moved(event.keyboard_input().unwrap())
        } else {
            self
        }
    }

    /// True when `event` asks for the loop to end.
    pub open spec fn is_exit(event: Event) -> bool {
        ||| event == Event::CloseRequested
        ||| (event.keyboard_input() matches Some(input) && asks_to_exit(input))
    }

    /// The state after `event`.
    pub open spec fn after(self, event: Event) -> StateView {
        if self.phase == Phase::Terminated {
            self
        } else if self.consumes(event) {
            self.after_input(event)
        } else if Self::is_exit(event) {
            self.in_phase(Phase::Terminated)
        } else {
            match event {
                Event::Resized(width, height) => self.resized(width, height),
                _ => self,
            }
        }
    }

    /// What the caller is to do after `event`.
    pub open spec fn action(self, event: Event) -> Action {
        if self.phase == Phase::Terminated {
            Action::Exit
        } else if self.consumes(event) {
            Action::Idle
        } else if Self::is_exit(event) {
            Action::Exit
        } else {
            match event {
                Event::Resized(width, height) => if self.has_surface() {
                    Action::Reconfigure { width, height }
                } else {
                    Action::Idle
                },
                Event::RedrawRequested => if self.phase == Phase::Ready {
                    Action::Render
                } else {
                    Action::Idle
                },
                _ => Action::Idle,
            }
        }
    }

    /// The state after the setup ended with `outcome`.
    pub open spec fn after_setup(self, outcome: Result<(), RenderError>) -> StateView {
        if self.phase == Phase::Uninitialized {
            match outcome {
                Ok(_) => self.in_phase(Phase::Ready),
                Err(_) => self.in_phase(Phase::Terminated),
            }
        } else {
            self
        }
    }

    /// What the caller is to do after the setup ended with `outcome`.
    pub open spec fn setup_action(self, outcome: Result<(), RenderError>) -> Action {
        if self.phase == Phase::Terminated || (self.phase == Phase::Uninitialized
            && outcome is Err) {
            Action::Exit
        } else {
            Action::Idle
        }
    }

    /// The state after a call of `render`.
    pub open spec fn after_render(self) -> StateView {
        if self.phase == Phase::Ready {
            if self.camera.camera_transform.invertible() {
                self.in_phase(Phase::Rendering)
            } else {
                self.in_phase(Phase::Terminated)
            }
        } else {
            self
        }
    }

    /// The state after the frame ended with `outcome`.
    pub open spec fn after_frame(self, outcome: Result<(), SurfaceError>) -> StateView {
        if self.phase == Phase::Rendering {
            match outcome {
                Ok(_) => self.in_phase(Phase::Ready),
                Err(e) => if RenderError::of_surface(e).fatal() {
                    self.in_phase(Phase::Terminated)
                } else {
                    self.in_phase(Phase::Ready)
                },
            }
        } else {
            self
        }
    }

    /// What the caller is to do after the frame ended with `outcome`.
    pub open spec fn frame_action(self, outcome: Result<(), SurfaceError>) -> Action {
        if self.phase == Phase::Terminated {
            Action::Exit
        } else if self.phase == Phase::Rendering {
            match outcome {
                Ok(_) => Action::Idle,
                Err(e) => match RenderError::of_surface(e).recovery_spec() {
                    Recovery::Reconfigure => Action::Reconfigure {
                        width: self.width,
                        height: self.height,
                    },
                    Recovery::SkipFrame => Action::Idle,
                    Recovery::Halt => Action::Exit,
                },
            }
        } else {
            Action::Idle
        }
    }
}

/// The state of the renderer: the phase of the loop, the size of the
/// window, the camera, and the model-view-projection product of the
/// camera as last computed.
#[derive(Debug)]
pub struct State {
    phase: Phase,
    width: u32,
    height: u32,
    num_indices: u32,
    camera: Camera,
    /// The product as last computed; it is the product of `camera` unless
    /// `stale`.
    uniform: Vec<Factor>,
    stale: bool,
}

impl View for State {
    type V = StateView;

    closed spec fn view(&self) -> StateView {
        StateView {
            phase: self.phase,
            width: self.width,
            height: self.height,
            num_indices: self.num_indices,
            camera: self.camera,
        }
    }
}

impl State {
    #[verifier::type_invariant]
    spec fn cache_is_consistent(self) -> bool {
        !self.stale ==> {
            &&& self.camera.camera_transform.invertible()
            &&& self.uniform@ == self.camera.model_view_projection()
        }
    }

    /// The state at start, for a window of `width` by `height` and a mesh
    /// of `num_indices` indices.
    pub fn new(width: u32, height: u32, num_indices: u32) -> (r: State)
        ensures
            r@ == StateView::initial(width, height, num_indices),
    {
        let model_transform = TransformationMatrix::new(Vec3::zero(), 0, 0, 0);
        let camera_transform = TransformationMatrix::new(
            Vec3::new(0, 0, INITIAL_CAMERA_DISTANCE),
            0,
            0,
            0,
        );
        let projection = Projection::new(INITIAL_FOVY, width, height, INITIAL_NEAR, INITIAL_FAR);
        State {
            phase: Phase::Uninitialized,
            width,
            height,
            num_indices,
            camera: Camera::new(model_transform, camera_transform, projection),
            uniform: Vec::new(),
            stale: true,
        }
    }

    pub fn phase(&self) -> (r: Phase)
        ensures
            r == self@.phase,
    {
        self.phase
    }

    /// The width and the height of the window.
    pub fn size(&self) -> (r: (u32, u32))
        ensures
            r == (self@.width, self@.height),
    {
        (self.width, self.height)
    }

    pub fn num_indices(&self) -> (r: u32)
        ensures
            r == self@.num_indices,
    {
        self.num_indices
    }

    pub fn camera(&self) -> (r: Camera)
        ensures
            r == self@.camera,
    {
        self.camera
    }

    /// Replaces the camera.
    pub fn set_camera(&mut self, camera: Camera)
        ensures
            final(self)@ == (StateView { camera, ..old(self)@ }),
    {
        self.stale = true;
        self.camera = camera;
    }

    /// The configuration that the surface is to have: the size of the
    /// window, frames shown in the order of submission.
    pub fn surface_configuration(&self) -> (r: SurfaceConfiguration)
        ensures
            r == (SurfaceConfiguration {
                width: self@.width,
                height: self@.height,
                present_mode: PresentMode::Fifo,
            }),
    {
        SurfaceConfiguration {
            width: self.width,
            height: self.height,
            present_mode: PresentMode::Fifo,
        }
    }

    /// Reports the end of the setup. On success the loop is ready for its
    /// first frame; on failure it ends before it began.
    pub fn setup_finished(&mut self, outcome: Result<(), RenderError>) -> (action: Action)
        ensures
            final(self)@ == old(self)@.after_setup(outcome),
            action == old(self)@.setup_action(outcome),
    {
        proof {
            use_type_invariant(&*self);
        }
        match self.phase {
            Phase::Uninitialized => match outcome {
                Ok(_) => {
                    self.phase = Phase::Ready;
                    Action::Idle
                },
                Err(_) => {
                    self.phase = Phase::Terminated;
                    Action::Exit
                },
            },
            Phase::Terminated => Action::Exit,
            _ => Action::Idle,
        }
    }

    /// Takes in a new size of the window: stores it and makes it the
    /// aspect ratio of the projection. The poses are left as they are.
    pub fn resize(&mut self, width: u32, height: u32)
        ensures
            final(self)@ == old(self)@.resized(width, height),
    {
        self.stale = true;
        self.width = width;
        self.height = height;
        self.camera.projection = self.camera.projection.with_aspect(width, height);
    }

    /// Offers `event` to the input handling. Returns `true` when the
    /// event was taken: it was a key that moves the camera, and the camera
    /// has moved.
    pub fn input(&mut self, event: &Event) -> (taken: bool)
        ensures
            taken == old(self)@.consumes(*event),
            final(self)@ == old(self)@.after_input(*event),
    {
        match self.phase {
            Phase::Terminated => false,
            _ => match event.as_keyboard_input() {
                Some(input) => {
                    if is_camera_movement(input) {
                        handle_keyboard_input(self, input);
                        true
                    } else {
                        false
                    }
                },
                None => false,
            },
        }
    }

    /// Takes in an event of the window and tells what to do next.
    pub fn handle(&mut self, event: Event) -> (action: Action)
        ensures
            final(self)@ == old(self)@.after(event),
            action == old(self)@.action(event),
    {
        match self.phase {
            Phase::Terminated => {
                return Action::Exit;
            },
            _ => {},
        }
        if self.input(&event) {
            return Action::Idle;
        }
        proof {
            use_type_invariant(&*self);
        }
        let exit = match event.as_keyboard_input() {
            Some(input) => is_exit_request(input),
            None => false,
        };
        match event {
            Event::CloseRequested => {
                self.phase = Phase::Terminated;
                Action::Exit
            },
            Event::Resized(width, height) => {
                self.resize(width, height);
                match self.phase {
                    Phase::Ready | Phase::Rendering => Action::Reconfigure { width, height },
                    _ => Action::Idle,
                }
            },
            Event::RedrawRequested => match self.phase {
                Phase::Ready => Action::Render,
                _ => Action::Idle,
            },
            _ => {
                if exit {
                    self.phase = Phase::Terminated;
                    Action::Exit
                } else {
                    Action::Idle
                }
            },
        }
    }

    /// Starts a frame.
    ///
    /// Between two frames, this hands out the frame to carry out: the
    /// model-view-projection product of the camera as it is now, computed
    /// anew only if the camera has changed since it was last computed, and
    /// the steps of the frame. If the camera pose cannot be inverted the
    /// loop ends with `NonInvertiblePose`. In every other phase no frame is
    /// due, and nothing changes.
    pub fn render(&mut self) -> (r: Result<Option<Frame>, RenderError>)
        ensures
            final(self)@ == old(self)@.after_render(),
            r is Err <==> old(self)@.phase == Phase::Ready
                && !old(self)@.camera.camera_transform.invertible(),
            r matches Err(e) ==> e == RenderError::NonInvertiblePose,
            r matches Ok(None) <==> old(self)@.phase != Phase::Ready,
            r matches Ok(Some(frame)) ==> {
                &&& frame.uniform@ == old(self)@.camera.model_view_projection()
                &&& frame.steps@ == frame_sequence_of(old(self)@.num_indices)
            },
    {
        proof {
            use_type_invariant(&*self);
        }
        match self.phase {
            Phase::Ready => {},
            _ => {
                return Ok(None);
            },
        }
        if self.stale {
            match self.camera.build_model_view_projection_matrix() {
                Ok(product) => {
                    self.uniform = product;
                    self.stale = false;
                },
                Err(e) => {
                    self.phase = Phase::Terminated;
                    return Err(e);
                },
            }
        }
        self.phase = Phase::Rendering;
        let mut uniform: Vec<Factor> = Vec::new();
        extend_product(&mut uniform, &self.uniform);
        assert(uniform@ =~= self.uniform@);
        Ok(Some(Frame { uniform, steps: frame_sequence(self.num_indices) }))
    }

    /// Reports the end of the frame that `render` started: `Ok` when the
    /// image was shown, else why the image could not be acquired.
    ///
    /// An outdated or lost surface is configured anew for the size of the
    /// window, a timeout costs this frame only, and in both cases the loop
    /// is ready for the next tick; without memory the loop ends.
    pub fn frame_finished(&mut self, outcome: Result<(), SurfaceError>) -> (action: Action)
        ensures
            final(self)@ == old(self)@.after_frame(outcome),
            action == old(self)@.frame_action(outcome),
    {
        proof {
            use_type_invariant(&*self);
        }
        match self.phase {
            Phase::Terminated => Action::Exit,
            Phase::Rendering => match outcome {
                Ok(_) => {
                    self.phase = Phase::Ready;
                    Action::Idle
                },
                Err(e) => match RenderError::from_surface(e).recovery() {
                    Recovery::Reconfigure => {
                        self.phase = Phase::Ready;
                        Action::Reconfigure { width: self.width, height: self.height }
                    },
                    Recovery::SkipFrame => {
                        self.phase = Phase::Ready;
                        Action::Idle
                    },
                    Recovery::Halt => {
                        self.phase = Phase::Terminated;
                        Action::Exit
                    },
                },
            },
            _ => Action::Idle,
        }
    }
}

/// Moves the camera of `state` as `input` asks.
pub fn handle_keyboard_input(state: &mut State, input: KeyboardInput)
    ensures
        final(state)@ == old(state)@.moved(input),
{
    let movement = camera_movement(input);
    let mut camera = state.camera;
    camera.camera_transform = camera.camera_transform.transform(movement, 0, 0, 0);
    state.stale = true;
    state.camera = camera;
}

/// Once the loop has ended it stays ended, whatever is reported, and the
/// caller is told to leave.
pub proof fn lemma_terminated_is_final(
    state: StateView,
    event: Event,
    setup: Result<(), RenderError>,
    frame: Result<(), SurfaceError>,
)
    requires
        state.phase == Phase::Terminated,
    ensures
        state.after(event) == state,
        state.action(event) == Action::Exit,
        state.after_setup(setup) == state,
        state.setup_action(setup) == Action::Exit,
        state.after_render() == state,
        state.after_frame(frame) == state,
        state.frame_action(frame) == Action::Exit,
{
}

/// The surface follows the window: whenever there is a surface and an
/// event changes the stored size, the caller is told to configure the
/// surface for the new size; and whenever the caller is told to configure
/// the surface, it is for the size that is stored afterwards.
pub proof fn lemma_surface_follows_window(
    state: StateView,
    event: Event,
    frame: Result<(), SurfaceError>,
)
    ensures
        state.has_surface() && (state.after(event).width != state.width || state.after(
            event,
        ).height != state.height) ==> state.action(event) == (Action::Reconfigure {
            width: state.after(event).width,
            height: state.after(event).height,
        }),
        state.action(event) matches Action::Reconfigure { width, height } ==> width
            == state.after(event).width && height == state.after(event).height,
        state.frame_action(frame) matches Action::Reconfigure { width, height } ==> width
            == state.after_frame(frame).width && height == state.after_frame(frame).height,
{
}

/// A new size of the window becomes the aspect ratio of the projection
/// and leaves everything else of the camera as it was: both poses, the
/// field of view and the two planes.
pub proof fn lemma_resize_keeps_poses(state: StateView, width: u32, height: u32)
    ensures
        state.resized(width, height).camera.model_transform == state.camera.model_transform,
        state.resized(width, height).camera.camera_transform == state.camera.camera_transform,
        state.resized(width, height).camera.projection == (Projection {
            aspect_width: width,
            aspect_height: height,
            ..state.camera.projection
        }),
        state.resized(width, height).phase == state.phase,
        state.resized(width, height).width == width,
        state.resized(width, height).height == height,
{
}

/// Only a frame moves the loop between `Ready` and `Rendering`: events of
/// the window leave the phase as it is or end the loop.
pub proof fn lemma_events_keep_phase(state: StateView, event: Event)
    ensures
        state.after(event).phase == state.phase || state.after(event).phase == Phase::Terminated,
        state.after(event).phase == Phase::Terminated && state.phase != Phase::Terminated
            ==> StateView::is_exit(event),
{
}

} // verus!
