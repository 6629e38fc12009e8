//! The frame state machine.
//!
//! The loop itself performs no outside work. The driver that owns the window
//! and the graphics device reports what happened as a [`LoopEvent`]; the loop
//! moves to its next state and answers with the [`LoopAction`] that the driver
//! has to perform. A frame therefore takes several steps: a redraw request
//! starts an acquisition, the presentation backend answers with a changed
//! image set, an image or a failure, and only an image acquired while the
//! frame resources are current leads to a draw.

use vstd::prelude::*;

verus! {

/// How long the driver may wait for a presentable image, in milliseconds.
pub const ACQUIRE_TIMEOUT_MS: u64 = 1000;

/// The colour that every frame is cleared to, as 8-bit red, green, blue and
/// alpha from the highest byte down: opaque blue.
pub const CLEAR_COLOR_RGBA: u32 = 0x0000_ffff;

/// The extent of a window or of a presentable surface, in physical pixels.
#[derive(Clone, Copy, Debug, PartialEq, Eq, Structural)]
pub struct Extent {
    pub width: u32,
    pub height: u32,
}

impl Extent {
    /// Whether the extent covers no pixel at all.
    pub open spec fn is_empty(self) -> bool {
        self.width == 0 || self.height == 0
    }

    /// Whether the extent covers no pixel at all.
    pub fn has_no_area(&self) -> (empty: bool)
        ensures
            empty == self.is_empty(),
    {
        self.width == 0 || self.height == 0
    }
}

/// What depends on the presentable surface: one framebuffer for each of its
/// images, numbered like the images, and the viewport rectangle, which starts
/// at the origin and covers the window.
#[derive(Clone, Copy, Debug, PartialEq, Eq, Structural)]
pub struct FrameResources {
    pub framebuffer_count: u32,
    pub viewport: Extent,
}

/// The frame resources for a surface of `image_count` images shown in a window
/// of the given extent.
pub open spec fn frame_resources(image_count: u32, extent: Extent) -> FrameResources {
    FrameResources { framebuffer_count: image_count, viewport: extent }
}

/// Derives the frame resources from the surface's image set and the window's
/// extent: framebuffer count and viewport are always made together.
pub fn window_size_dependent_setup(image_count: u32, extent: Extent) -> (resources: FrameResources)
    ensures
        resources == frame_resources(image_count, extent),
{
    FrameResources { framebuffer_count: image_count, viewport: extent }
}

/// Where the loop stands within a frame.
#[derive(Clone, Copy, Debug, PartialEq, Eq, Structural)]
pub enum FramePhase {
    /// No frame is under way.
    Idle,
    /// A frame has begun for a window of `extent` and waits for the backend's
    /// answer. `retried` says that the acquisition was already asked for a
    /// second time.
    Acquiring { extent: Extent, retried: bool },
}

/// What a loop that is ready to render holds.
#[derive(Clone, Copy, Debug, PartialEq, Eq, Structural)]
pub struct RenderContext {
    /// The frame resources as they were last built.
    pub resources: FrameResources,
    /// Whether the surface needs a new image set before it is drawn to again.
    pub surface_stale: bool,
    pub phase: FramePhase,
}

/// The state of the render loop.
#[derive(Clone, Copy, Debug, PartialEq, Eq, Structural)]
pub enum RenderLoop {
    /// No surface exists yet.
    Uninitialized,
    /// A surface exists and frames can be rendered.
    Ready(RenderContext),
    /// The window was closed, or a frame failed for good. Nothing is rendered
    /// any more.
    Closed,
}

/// What the driver reports to the loop.
#[derive(Clone, Copy, Debug, PartialEq, Eq, Structural)]
pub enum LoopEvent {
    /// A fresh surface with `image_count` images was created for a window of
    /// the given extent.
    Resumed { image_count: u32, extent: Extent },
    /// The window was asked to close.
    CloseRequested,
    /// The window changed its size.
    Resized,
    /// The window wants a frame; `extent` is its size right now.
    RedrawRequested { extent: Extent },
    /// During acquisition the surface came up with a new set of `image_count`
    /// images.
    SurfaceChanged { image_count: u32 },
    /// The acquisition found the surface out of date and gave no image.
    SurfaceOutOfDate,
    /// The acquisition gave the image with the given number.
    ImageAcquired { index: u32 },
    /// The acquisition gave nothing within the timeout.
    AcquireTimedOut,
}

/// Why a frame failed for good.
#[derive(Clone, Copy, Debug, PartialEq, Eq, Structural)]
pub enum FrameError {
    /// No image became available within the timeout: the presentation backend
    /// is stalled.
    AcquireTimeout,
    /// An image arrived although the surface was known to need a new image
    /// set and none had been reported.
    StaleSurface,
    /// An image arrived for which no framebuffer exists.
    UnknownImage,
}

/// What the driver has to do next.
#[derive(Clone, Copy, Debug, PartialEq, Eq, Structural)]
pub enum LoopAction {
    /// Nothing.
    Idle,
    /// Ask the event loop to terminate, after the work in flight has drained.
    Exit,
    /// Have the surface make a new image set at the next acquisition.
    InvalidateSurface,
    /// Ask for a presentable image and wait at most `timeout_ms`. `retry` is
    /// false for the first request of a frame.
    Acquire { timeout_ms: u64, retry: bool },
    /// Rebuild framebuffers and viewport as given, then go on acquiring.
    Rebuild(FrameResources),
    /// Record and submit the frame into the framebuffer of that number.
    Draw { framebuffer: u32, viewport: Extent },
    /// Give up: the failure is to be shown to whoever drives the loop.
    Fail(FrameError),
}

impl RenderContext {
    /// The context right after a surface was created.
    pub open spec fn fresh(image_count: u32, extent: Extent) -> RenderContext {
        RenderContext {
            resources: frame_resources(image_count, extent),
            surface_stale: false,
            phase: FramePhase::Idle,
        }
    }

    /// Next state and action of a ready loop.
    pub open spec fn step(self, event: LoopEvent) -> (RenderLoop, LoopAction) {
        match event {
            LoopEvent::Resumed { image_count, extent } => (
                RenderLoop::Ready(RenderContext::fresh(image_count, extent)),
                LoopAction::Idle,
            ),
            LoopEvent::CloseRequested => (RenderLoop::Closed, LoopAction::Exit),
            LoopEvent::Resized => (
                RenderLoop::Ready(RenderContext { surface_stale: true, ..self }),
                LoopAction::InvalidateSurface,
            ),
            LoopEvent::RedrawRequested { extent } => if extent.is_empty() {
                (RenderLoop::Ready(self), LoopAction::Idle)
            } else {
                (
                    RenderLoop::Ready(
                        RenderContext {
                            phase: FramePhase::Acquiring { extent, retried: false },
                            ..self
                        },
                    ),
                    LoopAction::Acquire { timeout_ms: ACQUIRE_TIMEOUT_MS, retry: false },
                )
            },
            _ => match self.phase {
                FramePhase::Idle => (RenderLoop::Ready(self), LoopAction::Idle),
                FramePhase::Acquiring { extent, retried } => self.step_acquiring(
                    extent,
                    retried,
                    event,
                ),
            },
        }
    }

    /// Next state and action for the backend's answer to an acquisition that
    /// was begun for a window of `extent`.
    pub open spec fn step_acquiring(self, extent: Extent, retried: bool, event: LoopEvent) -> (
        RenderLoop,
        LoopAction,
    ) {
        match event {
            LoopEvent::SurfaceChanged { image_count } => (
                RenderLoop::Ready(
                    RenderContext {
                        resources: frame_resources(image_count, extent),
                        surface_stale: false,
                        ..self
                    },
                ),
                LoopAction::Rebuild(frame_resources(image_count, extent)),
            ),
            LoopEvent::SurfaceOutOfDate => if retried {
                (
                    RenderLoop::Ready(
                        RenderContext { surface_stale: true, phase: FramePhase::Idle, ..self },
                    ),
                    LoopAction::Idle,
                )
            } else {
                (
                    RenderLoop::Ready(
                        RenderContext {
                            surface_stale: true,
                            phase: FramePhase::Acquiring { extent, retried: true },
                            ..self
                        },
                    ),
                    LoopAction::Acquire { timeout_ms: ACQUIRE_TIMEOUT_MS, retry: true },
                )
            },
            LoopEvent::ImageAcquired { index } => if self.surface_stale {
                (RenderLoop::Closed, LoopAction::Fail(FrameError::StaleSurface))
            } else if index >= self.resources.framebuffer_count {
                (RenderLoop::Closed, LoopAction::Fail(FrameError::UnknownImage))
            } else {
                (
                    RenderLoop::Ready(RenderContext { phase: FramePhase::Idle, ..self }),
                    LoopAction::Draw { framebuffer: index, viewport: self.resources.viewport },
                )
            },
            LoopEvent::AcquireTimedOut => (
                RenderLoop::Closed,
                LoopAction::Fail(FrameError::AcquireTimeout),
            ),
            _ => (RenderLoop::Ready(self), LoopAction::Idle),
        }
    }
}

impl RenderLoop {
    /// Next state and action of the loop, whatever its state.
    ///
    /// A closed loop stays closed and does nothing. A loop without a surface
    /// waits for one, or for the close request. A ready loop follows
    /// [`RenderContext::step`].
    pub open spec fn step(self, event: LoopEvent) -> (RenderLoop, LoopAction) {
        match self {
            RenderLoop::Closed => (RenderLoop::Closed, LoopAction::Idle),
            RenderLoop::Uninitialized => match event {
                LoopEvent::Resumed { image_count, extent } => (
                    RenderLoop::Ready(RenderContext::fresh(image_count, extent)),
                    LoopAction::Idle,
                ),
                LoopEvent::CloseRequested => (RenderLoop::Closed, LoopAction::Exit),
                _ => (RenderLoop::Uninitialized, LoopAction::Idle),
            },
            RenderLoop::Ready(context) => context.step(event),
        }
    }

    /// The frame resources of a ready loop.
    pub open spec fn resources(self) -> Option<FrameResources> {
        match self {
            RenderLoop::Ready(context) => Some(context.resources),
            _ => None,
        }
    }

    /// A loop that has no surface yet.
    pub fn new() -> (state: RenderLoop)
        ensures
            state == RenderLoop::Uninitialized,
    {
        RenderLoop::Uninitialized
    }

    /// Takes one event, moves to the next state and says what is to be done.
    pub fn handle(&mut self, event: LoopEvent) -> (action: LoopAction)
        ensures
            (*final(self), action) == old(self).step(event),
    {
        match *self {
            RenderLoop::Closed => LoopAction::Idle,
            RenderLoop::Uninitialized => match event {
                LoopEvent::Resumed { image_count, extent } => {
                    *self = RenderLoop::Ready(
                        RenderContext {
                            resources: window_size_dependent_setup(image_count, extent),
                            surface_stale: false,
                            phase: FramePhase::Idle,
                        },
                    );
                    LoopAction::Idle
                },
                LoopEvent::CloseRequested => {
                    *self = RenderLoop::Closed;
                    LoopAction::Exit
                },
                _ => LoopAction::Idle,
            },
            RenderLoop::Ready(context) => {
                let (next, action) = context.handle(event);
                *self = next;
                action
            },
        }
    }
}

impl RenderContext {
    /// One step of a ready loop.
    fn handle(self, event: LoopEvent) -> (next: (RenderLoop, LoopAction))
        ensures
            next == self.step(event),
    {
        let mut context = self;
        match event {
            LoopEvent::Resumed { image_count, extent } => {
                context.resources = window_size_dependent_setup(image_count, extent);
                context.surface_stale = false;
                context.phase = FramePhase::Idle;
                (RenderLoop::Ready(context), LoopAction::Idle)
            },
            LoopEvent::CloseRequested => (RenderLoop::Closed, LoopAction::Exit),
            LoopEvent::Resized => {
                context.surface_stale = true;
                (RenderLoop::Ready(context), LoopAction::InvalidateSurface)
            },
            LoopEvent::RedrawRequested { extent } => {
                if extent.has_no_area() {
                    return (RenderLoop::Ready(context), LoopAction::Idle);
                }
                context.phase = FramePhase::Acquiring { extent, retried: false };
                (
                    RenderLoop::Ready(context),
                    LoopAction::Acquire { timeout_ms: ACQUIRE_TIMEOUT_MS, retry: false },
                )
            },
            LoopEvent::SurfaceChanged { image_count } => match self.phase {
                FramePhase::Idle => (RenderLoop::Ready(context), LoopAction::Idle),
                FramePhase::Acquiring { extent, retried: _ } => {
                    let resources = window_size_dependent_setup(image_count, extent);
                    context.resources = resources;
                    context.surface_stale = false;
                    (RenderLoop::Ready(context), LoopAction::Rebuild(resources))
                },
            },
            LoopEvent::SurfaceOutOfDate => match self.phase {
                FramePhase::Idle => (RenderLoop::Ready(context), LoopAction::Idle),
                FramePhase::Acquiring { extent, retried } => {
                    context.surface_stale = true;
                    if retried {
                        context.phase = FramePhase::Idle;
                        (RenderLoop::Ready(context), LoopAction::Idle)
                    } else {
                        context.phase = FramePhase::Acquiring { extent, retried: true };
                        (
                            RenderLoop::Ready(context),
                            LoopAction::Acquire { timeout_ms: ACQUIRE_TIMEOUT_MS, retry: true },
                        )
                    }
                },
            },
            LoopEvent::ImageAcquired { index } => match self.phase {
                FramePhase::Idle => (RenderLoop::Ready(context), LoopAction::Idle),
                FramePhase::Acquiring { .. } => {
                    if self.surface_stale {
                        (RenderLoop::Closed, LoopAction::Fail(FrameError::StaleSurface))
                    } else if index >= self.resources.framebuffer_count {
                        (RenderLoop::Closed, LoopAction::Fail(FrameError::UnknownImage))
                    } else {
                        context.phase = FramePhase::Idle;
                        (
                            RenderLoop::Ready(context),
                            LoopAction::Draw {
                                framebuffer: index,
                                viewport: self.resources.viewport,
                            },
                        )
                    }
                },
            },
            LoopEvent::AcquireTimedOut => match self.phase {
                FramePhase::Idle => (RenderLoop::Ready(context), LoopAction::Idle),
                FramePhase::Acquiring { .. } => (
                    RenderLoop::Closed,
                    LoopAction::Fail(FrameError::AcquireTimeout),
                ),
            },
        }
    }
}

impl RenderLoop {
    /// The resources that the event rebuilds in this state, if it rebuilds
    /// any: a fresh surface brings its own image count and extent, and a
    /// changed image set is paired with the extent of the window for which
    /// the frame under way was begun.
    pub open spec fn rebuilds(self, event: LoopEvent) -> Option<FrameResources> {
        match (self, event) {
            (RenderLoop::Uninitialized, LoopEvent::Resumed { image_count, extent }) => Some(
                frame_resources(image_count, extent),
            ),
            (RenderLoop::Ready(_), LoopEvent::Resumed { image_count, extent }) => Some(
                frame_resources(image_count, extent),
            ),
            (RenderLoop::Ready(context), LoopEvent::SurfaceChanged { image_count }) => match context.phase {
                FramePhase::Acquiring { extent, .. } => Some(frame_resources(image_count, extent)),
                FramePhase::Idle => None,
            },
            _ => None,
        }
    }

    /// Whether the loop is ready and its frame resources belong to the
    /// surface's present image set.
    pub open spec fn is_current(self) -> bool {
        self matches RenderLoop::Ready(context) && !context.surface_stale
    }

    /// The state after a sequence of events.
    pub open spec fn run(self, events: Seq<LoopEvent>) -> RenderLoop
        decreases events.len(),
    {
        if events.len() == 0 {
            self
        } else {
            self.run(events.drop_last()).step(events.last()).0
        }
    }
}

/// A redraw request for a window without area is an idle tick: whatever the
/// state, it stays as it is, frame resources included, and nothing is asked
/// of the driver.
pub proof fn lemma_empty_window_skips_frame(state: RenderLoop, extent: Extent)
    requires
        extent.is_empty(),
    ensures
        state.step(LoopEvent::RedrawRequested { extent }) == (state, LoopAction::Idle),
{
}

/// Once closed, the loop stays closed and asks for nothing: no frame is
/// begun, acquired or drawn any more.
pub proof fn lemma_closed_is_final(events: Seq<LoopEvent>, event: LoopEvent)
    ensures
        RenderLoop::Closed.run(events) == RenderLoop::Closed,
        RenderLoop::Closed.run(events).step(event) == (RenderLoop::Closed, LoopAction::Idle),
    decreases events.len(),
{
    if events.len() > 0 {
        lemma_closed_is_final(events.drop_last(), events.last());
    }
}

/// The close request ends the loop from every state that is not closed yet,
/// and asks the driver to leave the event loop.
pub proof fn lemma_close_request_closes(state: RenderLoop)
    requires
        state != RenderLoop::Closed,
    ensures
        state.step(LoopEvent::CloseRequested) == (RenderLoop::Closed, LoopAction::Exit),
{
}

/// A failure is reported in three cases only, each during an acquisition,
/// and each closes the loop: the backend timed out; it gave an image
/// although the surface needed a new image set; it gave an image that has no
/// framebuffer.
pub proof fn lemma_failures(state: RenderLoop, event: LoopEvent, error: FrameError)
    requires
        state.step(event).1 == LoopAction::Fail(error),
    ensures
        state.step(event).0 == RenderLoop::Closed,
        state matches RenderLoop::Ready(context) && context.phase is Acquiring && match error {
            FrameError::AcquireTimeout => event == LoopEvent::AcquireTimedOut,
            FrameError::StaleSurface => event is ImageAcquired && context.surface_stale,
            FrameError::UnknownImage => {
                &&& event matches LoopEvent::ImageAcquired { index }
                &&& !context.surface_stale
                &&& index >= context.resources.framebuffer_count
            },
        },
{
}

/// A frame is drawn only for an image acquired by a loop whose resources are
/// current: the framebuffer is one of those that exist, the viewport is the
/// one that was built with them, and drawing leaves the resources alone.
pub proof fn lemma_draw_uses_current_resources(
    state: RenderLoop,
    event: LoopEvent,
    framebuffer: u32,
    viewport: Extent,
)
    requires
        state.step(event).1 == (LoopAction::Draw { framebuffer, viewport }),
    ensures
        state.is_current(),
        event == (LoopEvent::ImageAcquired { index: framebuffer }),
        state.resources() matches Some(resources) && framebuffer < resources.framebuffer_count
            && viewport == resources.viewport,
        state.step(event).0.resources() == state.resources(),
{
}

/// Frame resources change only by being rebuilt, framebuffers and viewport
/// together. A resize makes a ready loop stale, and a stale loop becomes
/// current again only through a rebuild.
pub proof fn lemma_resources_change_by_rebuild(state: RenderLoop, event: LoopEvent)
    ensures
        state.rebuilds(event) matches Some(resources) ==> {
            &&& state.step(event).0.resources() == Some(resources)
            &&& state.step(event).0.is_current()
        },
        state.rebuilds(event) is None ==> {
            &&& state.step(event).0.resources() is Some ==> state.step(event).0.resources()
                == state.resources()
            &&& state.step(event).0.is_current() ==> state.is_current()
        },
        state is Ready && event == LoopEvent::Resized ==> !state.step(event).0.is_current(),
{
}

/// A frame that follows a resize, step by step. The resize asks the driver to
/// invalidate the surface. The next redraw request begins an acquisition. An
/// image that arrives before the surface has reported its new image set fails
/// the frame. Once the new set of `image_count` images is reported, the
/// resources are rebuilt for it and for the window's extent, and the image
/// that arrives then is drawn into its own framebuffer with that viewport.
pub proof fn lemma_frame_after_resize(
    context: RenderContext,
    extent: Extent,
    image_count: u32,
    index: u32,
)
    requires
        !extent.is_empty(),
    ensures
        ({
            let (resized, invalidate) = RenderLoop::Ready(context).step(LoopEvent::Resized);
            let (acquiring, acquire) = resized.step(LoopEvent::RedrawRequested { extent });
            let (rebuilt, rebuild) = acquiring.step(LoopEvent::SurfaceChanged { image_count });
            let (done, draw) = rebuilt.step(LoopEvent::ImageAcquired { index });
            &&& invalidate == LoopAction::InvalidateSurface
            &&& acquire == (LoopAction::Acquire { timeout_ms: ACQUIRE_TIMEOUT_MS, retry: false })
            &&& acquiring.step(LoopEvent::ImageAcquired { index }) == (
                RenderLoop::Closed,
                LoopAction::Fail(FrameError::StaleSurface),
            )
            &&& rebuild == LoopAction::Rebuild(frame_resources(image_count, extent))
            &&& rebuilt.resources() == Some(frame_resources(image_count, extent))
            &&& index < image_count ==> {
                &&& draw == (LoopAction::Draw { framebuffer: index, viewport: extent })
                &&& done.resources() == Some(frame_resources(image_count, extent))
            }
            &&& index >= image_count ==> {
                &&& draw == LoopAction::Fail(FrameError::UnknownImage)
                &&& done == RenderLoop::Closed
            }
        }),
{
}

/// Whatever happens after a ready loop has seen a resize: if the loop is
/// current again, then a rebuild has happened since the resize, and the
/// resources are exactly those of the last such rebuild. In particular the
/// first frame that is drawn after a resize has as many framebuffers as the
/// surface had images when it reported them, and the viewport of the window
/// for which that frame was begun.
pub proof fn lemma_current_after_resize_was_rebuilt(
    start: RenderLoop,
    events: Seq<LoopEvent>,
    resize_at: int,
) -> (rebuilt_at: int)
    requires
        0 <= resize_at < events.len(),
        events[resize_at] == LoopEvent::Resized,
        start.run(events.take(resize_at)) is Ready,
        start.run(events).is_current(),
    ensures
        resize_at < rebuilt_at < events.len(),
        start.run(events.take(rebuilt_at)).rebuilds(events[rebuilt_at]) == start.run(
            events,
        ).resources(),
        start.run(events).resources() is Some,
    decreases events.len(),
{
    let earlier = events.drop_last();
    let before = start.run(earlier);
    let last = events.last();
    assert(earlier =~= events.take(events.len() - 1));
    lemma_resources_change_by_rebuild(before, last);
    if before.rebuilds(last) is Some {
        assert(resize_at < events.len() - 1) by {
            if resize_at == events.len() - 1 {
                assert(last == LoopEvent::Resized);
            }
        }
        events.len() - 1
    } else {
        assert(before.is_current());
        assert(resize_at < events.len() - 1) by {
            if resize_at == events.len() - 1 {
                assert(before is Ready);
                assert(last == LoopEvent::Resized);
            }
        }
        assert(earlier.take(resize_at) =~= events.take(resize_at));
        let rebuilt_at = lemma_current_after_resize_was_rebuilt(start, earlier, resize_at);
        assert(earlier.take(rebuilt_at) =~= events.take(rebuilt_at));
        rebuilt_at
    }
}

} // verus!
