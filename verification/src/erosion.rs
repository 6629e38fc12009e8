//! The application core: the terrain mesh, the camera controller and the
//! render loop under one roof.
//!
//! The core owns no window and no device. A driver owns those, hands every
//! notification to the core, and performs the [`Action`] that comes back.

use crate::camera::{key_effect, ActiveDirections, CameraController, CameraDirection, Motion};
use crate::mesh::{grid_fits, index_count, Mesh};
use crate::render_loop::{
    Extent, FrameError, FrameResources, LoopAction, LoopEvent, RenderLoop, CLEAR_COLOR_RGBA,
};
use vstd::prelude::*;

verus! {

/// What the window reports.
#[derive(Clone, Copy, Debug, PartialEq, Eq, Structural)]
pub enum WindowNotice {
    /// The window was asked to close.
    CloseRequested,
    /// The window changed its size.
    Resized,
    /// The window wants a frame; `extent` is its size right now.
    RedrawRequested { extent: Extent },
    /// A key went down or up.
    KeyboardInput { key: u32, pressed: bool },
    /// Anything else.
    Other,
}

/// What the presentation backend answers while a frame is being acquired.
#[derive(Clone, Copy, Debug, PartialEq, Eq, Structural)]
pub enum Acquisition {
    /// The surface came up with a new set of `image_count` images.
    SurfaceChanged { image_count: u32 },
    /// The surface is out of date and gave no image.
    SurfaceOutOfDate,
    /// The image with the given number is ready.
    ImageAcquired { index: u32 },
    /// No image became ready within the timeout.
    TimedOut,
}

/// What one frame draws.
#[derive(Clone, Copy, Debug, PartialEq, Eq, Structural)]
pub struct DrawPlan {
    /// The framebuffer to render into: that of the acquired image.
    pub framebuffer: u32,
    /// The viewport of the frame.
    pub viewport: Extent,
    /// The colour to clear the framebuffer to (see [`CLEAR_COLOR_RGBA`]).
    pub clear_rgba: u32,
    /// How many indices to draw, from the first on: the whole mesh.
    pub index_count: usize,
}

/// What the driver has to do next.
#[derive(Clone, Copy, Debug, PartialEq, Eq, Structural)]
pub enum Action {
    /// Nothing.
    Idle,
    /// Ask the event loop to terminate, after the work in flight has drained.
    Exit,
    /// Have the surface make a new image set at the next acquisition.
    InvalidateSurface,
    /// Begin a frame: move the camera by `motion` for the time that has passed
    /// since the last frame, build the matrices, then ask for a presentable
    /// image and wait at most `timeout_ms`.
    BeginFrame { motion: Motion, timeout_ms: u64 },
    /// Ask for a presentable image once more, for the same frame.
    RetryAcquire { timeout_ms: u64 },
    /// Rebuild framebuffers and viewport as given, then go on acquiring.
    Rebuild(FrameResources),
    /// Write the frame's uniforms, record the pass as planned, submit it after
    /// the previous frame and present the image.
    Draw(DrawPlan),
    /// Give up: the failure is to be shown to whoever drives the loop.
    Fail(FrameError),
}

/// The render loop's part of a window notification.
pub open spec fn loop_event_of(notice: WindowNotice) -> Option<LoopEvent> {
    match notice {
        WindowNotice::CloseRequested => Some(LoopEvent::CloseRequested),
        WindowNotice::Resized => Some(LoopEvent::Resized),
        WindowNotice::RedrawRequested { extent } => Some(LoopEvent::RedrawRequested { extent }),
        _ => None,
    }
}

/// The loop event that stands for an answer of the presentation backend.
pub open spec fn acquisition_event(outcome: Acquisition) -> LoopEvent {
    match outcome {
        Acquisition::SurfaceChanged { image_count } => LoopEvent::SurfaceChanged { image_count },
        Acquisition::SurfaceOutOfDate => LoopEvent::SurfaceOutOfDate,
        Acquisition::ImageAcquired { index } => LoopEvent::ImageAcquired { index },
        Acquisition::TimedOut => LoopEvent::AcquireTimedOut,
    }
}

/// The action that the driver sees for an action of the render loop, given the
/// motion that the camera commands and the length of the index stream.
pub open spec fn shown(action: LoopAction, motion: Motion, index_count: usize) -> Action {
    match action {
        LoopAction::Idle => Action::Idle,
        LoopAction::Exit => Action::Exit,
        LoopAction::InvalidateSurface => Action::InvalidateSurface,
        LoopAction::Acquire { timeout_ms, retry } => if retry {
            Action::RetryAcquire { timeout_ms }
        } else {
            Action::BeginFrame { motion, timeout_ms }
        },
        LoopAction::Rebuild(resources) => Action::Rebuild(resources),
        LoopAction::Draw { framebuffer, viewport } => Action::Draw(
            DrawPlan { framebuffer, viewport, clear_rgba: CLEAR_COLOR_RGBA, index_count },
        ),
        LoopAction::Fail(error) => Action::Fail(error),
    }
}

/// The core of the terrain viewer.
pub struct ErosionApp {
    camera: CameraController,
    render_loop: RenderLoop,
    mesh: Mesh,
}

impl ErosionApp {
    /// Number of columns of the map.
    pub closed spec fn map_width(&self) -> usize {
        self.mesh.columns()
    }

    /// Number of rows of the map.
    pub closed spec fn map_height(&self) -> usize {
        self.mesh.rows()
    }

    /// The key bindings of the camera.
    pub closed spec fn bindings(&self) -> Map<u32, CameraDirection> {
        self.camera.bindings()
    }

    /// The directions that are held down.
    pub closed spec fn held(&self) -> ActiveDirections {
        self.camera.active()
    }

    /// The state of the render loop.
    pub closed spec fn state(&self) -> RenderLoop {
        self.render_loop
    }

    /// Whether `other` has the same map and key bindings. These never change.
    pub open spec fn same_scene(&self, other: &ErosionApp) -> bool {
        &&& self.map_width() == other.map_width()
        &&& self.map_height() == other.map_height()
        &&& self.bindings() == other.bindings()
    }

    /// The action that the driver sees for an action of the render loop.
    pub open spec fn shows(&self, action: LoopAction) -> Action {
        shown(
            action,
            self.held().commanded(),
            index_count(self.map_width() as int, self.map_height() as int) as usize,
        )
    }

    /// Builds the core for a map of `map_width` by `map_height` vertices: the
    /// mesh is generated, no direction is held down and no surface exists.
    pub fn new(map_width: usize, map_height: usize, camera: CameraController) -> (app: ErosionApp)
        requires
            grid_fits(map_width as int, map_height as int),
        ensures
            app.map_width() == map_width,
            app.map_height() == map_height,
            app.bindings() == camera.bindings(),
            app.held() == camera.active(),
            app.state() == RenderLoop::Uninitialized,
    {
        ErosionApp {
            camera,
            render_loop: RenderLoop::new(),
            mesh: Mesh::new(map_width, map_height),
        }
    }

    /// The terrain mesh.
    pub fn mesh(&self) -> (mesh: &Mesh)
        ensures
            mesh.columns() == self.map_width(),
            mesh.rows() == self.map_height(),
    {
        &self.mesh
    }

    /// The camera controller.
    pub fn camera(&self) -> (camera: &CameraController)
        ensures
            camera.bindings() == self.bindings(),
            camera.active() == self.held(),
    {
        &self.camera
    }

    /// The state of the render loop.
    pub fn render_loop(&self) -> (state: RenderLoop)
        ensures
            state == self.state(),
    {
        self.render_loop
    }

    /// Takes the news that a fresh surface of `image_count` images exists for
    /// a window of the given extent, in place of any earlier one. The answer
    /// holds the frame resources to build for it; a closed core builds none.
    pub fn resumed(&mut self, image_count: u32, extent: Extent) -> (resources: Option<
        FrameResources,
    >)
        ensures
            final(self).same_scene(old(self)),
            final(self).held() == old(self).held(),
            final(self).state() == old(self).state().step(
                LoopEvent::Resumed { image_count, extent },
            ).0,
            resources == final(self).state().resources(),
    {
        let mut render_loop = self.render_loop;
        let _ = render_loop.handle(LoopEvent::Resumed { image_count, extent });
        self.render_loop = render_loop;
        match render_loop {
            RenderLoop::Ready(context) => Some(context.resources),
            _ => None,
        }
    }

    /// Takes a notification of the window.
    ///
    /// A key event goes to the camera and asks nothing of the driver. Close,
    /// resize and redraw requests go to the render loop. A redraw request for
    /// a window without area changes nothing and asks nothing.
    pub fn window_event(&mut self, event: WindowNotice) -> (action: Action)
        ensures
            final(self).same_scene(old(self)),
            match event {
                WindowNotice::KeyboardInput { key, pressed } => {
                    &&& final(self).held() == key_effect(
                        old(self).bindings(),
                        old(self).held(),
                        key,
                        pressed,
                    )
                    &&& final(self).state() == old(self).state()
                    &&& action == Action::Idle
                },
                WindowNotice::Other => {
                    &&& final(self).held() == old(self).held()
                    &&& final(self).state() == old(self).state()
                    &&& action == Action::Idle
                },
                _ => {
                    &&& final(self).held() == old(self).held()
                    &&& (final(self).state(), action) == ({
                        let (next, asked) = old(self).state().step(loop_event_of(event).unwrap());
                        (next, old(self).shows(asked))
                    })
                },
            },
            event matches WindowNotice::RedrawRequested { extent } && extent.is_empty() ==> {
                &&& final(self).state() == old(self).state()
                &&& action == Action::Idle
            },
    {
        match event {
            WindowNotice::KeyboardInput { key, pressed } => {
                self.camera.on_key(key, pressed);
                Action::Idle
            },
            WindowNotice::Other => Action::Idle,
            WindowNotice::CloseRequested => self.forward(LoopEvent::CloseRequested),
            WindowNotice::Resized => self.forward(LoopEvent::Resized),
            WindowNotice::RedrawRequested { extent } => self.forward(
                LoopEvent::RedrawRequested { extent },
            ),
        }
    }

    /// Takes an answer of the presentation backend to the acquisition that
    /// the core has asked for.
    pub fn frame_event(&mut self, outcome: Acquisition) -> (action: Action)
        ensures
            final(self).same_scene(old(self)),
            final(self).held() == old(self).held(),
            (final(self).state(), action) == ({
                let (next, asked) = old(self).state().step(acquisition_event(outcome));
                (next, old(self).shows(asked))
            }),
    {
        match outcome {
            Acquisition::SurfaceChanged { image_count } => self.forward(
                LoopEvent::SurfaceChanged { image_count },
            ),
            Acquisition::SurfaceOutOfDate => self.forward(LoopEvent::SurfaceOutOfDate),
            Acquisition::ImageAcquired { index } => self.forward(
                LoopEvent::ImageAcquired { index },
            ),
            Acquisition::TimedOut => self.forward(LoopEvent::AcquireTimedOut),
        }
    }

    /// Hands an event to the render loop and fills in what the driver needs
    /// to know from the camera and the mesh.
    fn forward(&mut self, event: LoopEvent) -> (action: Action)
        ensures
            final(self).same_scene(old(self)),
            final(self).held() == old(self).held(),
            (final(self).state(), action) == ({
                let (next, asked) = old(self).state().step(event);
                (next, old(self).shows(asked))
            }),
    {
        let mut render_loop = self.render_loop;
        let asked = render_loop.handle(event);
        self.render_loop = render_loop;
        match asked {
            LoopAction::Idle => Action::Idle,
            LoopAction::Exit => Action::Exit,
            LoopAction::InvalidateSurface => Action::InvalidateSurface,
            LoopAction::Acquire { timeout_ms, retry } => if retry {
                Action::RetryAcquire { timeout_ms }
            } else {
                Action::BeginFrame { motion: self.camera.motion(), timeout_ms }
            },
            LoopAction::Rebuild(resources) => Action::Rebuild(resources),
            LoopAction::Draw { framebuffer, viewport } => Action::Draw(
                DrawPlan {
                    framebuffer,
                    viewport,
                    clear_rgba: CLEAR_COLOR_RGBA,
                    index_count: self.mesh.indices().len(),
                },
            ),
            LoopAction::Fail(error) => Action::Fail(error),
        }
    }
}

} // verus!
