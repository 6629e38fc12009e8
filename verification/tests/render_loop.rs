use erosion::render_loop::{
    window_size_dependent_setup, Extent, FrameError, FramePhase, FrameResources, LoopAction,
    LoopEvent, RenderContext, RenderLoop, ACQUIRE_TIMEOUT_MS, CLEAR_COLOR_RGBA,
};

const SMALL: Extent = Extent { width: 640, height: 480 };
const LARGE: Extent = Extent { width: 1920, height: 1080 };

fn ready(image_count: u32, extent: Extent) -> RenderLoop {
    let mut state = RenderLoop::new();
    assert_eq!(state.handle(LoopEvent::Resumed { image_count, extent }), LoopAction::Idle);
    state
}

fn context(state: RenderLoop) -> RenderContext {
    match state {
        RenderLoop::Ready(context) => context,
        other => panic!("not ready: {:?}", other),
    }
}

fn every_event() -> Vec<LoopEvent> {
    vec![
        LoopEvent::Resumed { image_count: 2, extent: SMALL },
        LoopEvent::CloseRequested,
        LoopEvent::Resized,
        LoopEvent::RedrawRequested { extent: SMALL },
        LoopEvent::RedrawRequested { extent: Extent { width: 0, height: 0 } },
        LoopEvent::SurfaceChanged { image_count: 4 },
        LoopEvent::SurfaceOutOfDate,
        LoopEvent::ImageAcquired { index: 0 },
        LoopEvent::AcquireTimedOut,
    ]
}

#[test]
fn constants_have_their_reference_values() {
    assert_eq!(ACQUIRE_TIMEOUT_MS, 1000);
    assert_eq!(CLEAR_COLOR_RGBA, 0x0000_ffff);
}

#[test]
fn empty_extents_are_recognised() {
    assert!(Extent { width: 0, height: 600 }.has_no_area());
    assert!(Extent { width: 800, height: 0 }.has_no_area());
    assert!(Extent { width: 0, height: 0 }.has_no_area());
    assert!(!Extent { width: 1, height: 1 }.has_no_area());
}

#[test]
fn setup_makes_one_framebuffer_per_image_and_the_window_viewport() {
    assert_eq!(
        window_size_dependent_setup(3, SMALL),
        FrameResources { framebuffer_count: 3, viewport: SMALL }
    );
    assert_eq!(
        window_size_dependent_setup(0, LARGE),
        FrameResources { framebuffer_count: 0, viewport: LARGE }
    );
}

#[test]
fn new_loop_is_uninitialized() {
    assert_eq!(RenderLoop::new(), RenderLoop::Uninitialized);
}

#[test]
fn resume_makes_the_loop_ready_with_fresh_resources() {
    let state = ready(3, SMALL);
    assert_eq!(
        state,
        RenderLoop::Ready(RenderContext {
            resources: FrameResources { framebuffer_count: 3, viewport: SMALL },
            surface_stale: false,
            phase: FramePhase::Idle,
        })
    );
}

#[test]
fn resume_replaces_the_context_wholesale() {
    let mut state = ready(3, SMALL);
    state.handle(LoopEvent::Resized);
    state.handle(LoopEvent::RedrawRequested { extent: SMALL });
    assert_eq!(state.handle(LoopEvent::Resumed { image_count: 2, extent: LARGE }), LoopAction::Idle);
    assert_eq!(state, ready(2, LARGE));
}

#[test]
fn uninitialized_loop_ignores_everything_but_resume_and_close() {
    for event in every_event() {
        let mut state = RenderLoop::new();
        let action = state.handle(event);
        match event {
            LoopEvent::Resumed { .. } => assert_eq!(state, ready(2, SMALL)),
            LoopEvent::CloseRequested => {
                assert_eq!(state, RenderLoop::Closed);
                assert_eq!(action, LoopAction::Exit);
            }
            _ => {
                assert_eq!(state, RenderLoop::Uninitialized);
                assert_eq!(action, LoopAction::Idle);
            }
        }
    }
}

#[test]
fn close_request_closes_and_asks_to_exit() {
    let mut state = ready(3, SMALL);
    assert_eq!(state.handle(LoopEvent::CloseRequested), LoopAction::Exit);
    assert_eq!(state, RenderLoop::Closed);
}

#[test]
fn closed_loop_stays_closed_and_idle() {
    for first in every_event() {
        for second in every_event() {
            let mut state = RenderLoop::Closed;
            assert_eq!(state.handle(first), LoopAction::Idle);
            assert_eq!(state.handle(second), LoopAction::Idle);
            assert_eq!(state, RenderLoop::Closed);
        }
    }
}

#[test]
fn zero_width_redraw_changes_nothing() {
    let mut state = ready(3, SMALL);
    let before = state;
    assert_eq!(
        state.handle(LoopEvent::RedrawRequested { extent: Extent { width: 0, height: 480 } }),
        LoopAction::Idle
    );
    assert_eq!(state, before);
}

#[test]
fn zero_height_redraw_changes_nothing() {
    let mut state = ready(3, SMALL);
    state.handle(LoopEvent::Resized);
    let before = state;
    assert_eq!(
        state.handle(LoopEvent::RedrawRequested { extent: Extent { width: 640, height: 0 } }),
        LoopAction::Idle
    );
    assert_eq!(state, before);
}

#[test]
fn zero_extent_redraw_leaves_a_frame_under_way_alone() {
    let mut state = ready(3, SMALL);
    state.handle(LoopEvent::RedrawRequested { extent: SMALL });
    let before = state;
    assert_eq!(
        state.handle(LoopEvent::RedrawRequested { extent: Extent { width: 0, height: 0 } }),
        LoopAction::Idle
    );
    assert_eq!(state, before);
}

#[test]
fn redraw_begins_an_acquisition_with_the_reference_timeout() {
    let mut state = ready(3, SMALL);
    assert_eq!(
        state.handle(LoopEvent::RedrawRequested { extent: SMALL }),
        LoopAction::Acquire { timeout_ms: 1000, retry: false }
    );
    assert_eq!(context(state).phase, FramePhase::Acquiring { extent: SMALL, retried: false });
}

#[test]
fn acquired_image_is_drawn_into_its_framebuffer() {
    let mut state = ready(3, SMALL);
    state.handle(LoopEvent::RedrawRequested { extent: SMALL });
    assert_eq!(
        state.handle(LoopEvent::ImageAcquired { index: 2 }),
        LoopAction::Draw { framebuffer: 2, viewport: SMALL }
    );
    assert_eq!(state, ready(3, SMALL));
}

#[test]
fn viewport_follows_the_resources_not_the_redraw_extent() {
    let mut state = ready(3, SMALL);
    state.handle(LoopEvent::RedrawRequested { extent: LARGE });
    assert_eq!(
        state.handle(LoopEvent::ImageAcquired { index: 0 }),
        LoopAction::Draw { framebuffer: 0, viewport: SMALL }
    );
}

#[test]
fn resize_marks_the_surface_stale_without_rebuilding() {
    let mut state = ready(3, SMALL);
    assert_eq!(state.handle(LoopEvent::Resized), LoopAction::InvalidateSurface);
    let after = context(state);
    assert!(after.surface_stale);
    assert_eq!(after.resources, FrameResources { framebuffer_count: 3, viewport: SMALL });
    assert_eq!(after.phase, FramePhase::Idle);
}

#[test]
fn frame_after_resize_rebuilds_for_the_new_image_set_and_window() {
    let mut state = ready(3, SMALL);
    state.handle(LoopEvent::Resized);
    assert_eq!(
        state.handle(LoopEvent::RedrawRequested { extent: LARGE }),
        LoopAction::Acquire { timeout_ms: 1000, retry: false }
    );
    let rebuilt = FrameResources { framebuffer_count: 4, viewport: LARGE };
    assert_eq!(state.handle(LoopEvent::SurfaceChanged { image_count: 4 }), LoopAction::Rebuild(rebuilt));
    assert_eq!(
        state.handle(LoopEvent::ImageAcquired { index: 3 }),
        LoopAction::Draw { framebuffer: 3, viewport: LARGE }
    );
    let after = context(state);
    assert_eq!(after.resources.framebuffer_count, 4);
    assert_eq!(after.resources.viewport, LARGE);
    assert!(!after.surface_stale);
    assert_eq!(after.phase, FramePhase::Idle);
}

#[test]
fn image_on_a_stale_surface_fails_the_frame() {
    let mut state = ready(3, SMALL);
    state.handle(LoopEvent::Resized);
    state.handle(LoopEvent::RedrawRequested { extent: LARGE });
    assert_eq!(
        state.handle(LoopEvent::ImageAcquired { index: 0 }),
        LoopAction::Fail(FrameError::StaleSurface)
    );
    assert_eq!(state, RenderLoop::Closed);
}

#[test]
fn image_without_framebuffer_fails_the_frame() {
    let mut state = ready(3, SMALL);
    state.handle(LoopEvent::RedrawRequested { extent: SMALL });
    assert_eq!(
        state.handle(LoopEvent::ImageAcquired { index: 3 }),
        LoopAction::Fail(FrameError::UnknownImage)
    );
    assert_eq!(state, RenderLoop::Closed);
}

#[test]
fn acquisition_timeout_is_a_hard_failure() {
    let mut state = ready(3, SMALL);
    state.handle(LoopEvent::RedrawRequested { extent: SMALL });
    assert_eq!(
        state.handle(LoopEvent::AcquireTimedOut),
        LoopAction::Fail(FrameError::AcquireTimeout)
    );
    assert_eq!(state, RenderLoop::Closed);
    assert_eq!(state.handle(LoopEvent::RedrawRequested { extent: SMALL }), LoopAction::Idle);
}

#[test]
fn out_of_date_surface_is_retried_once_then_the_frame_is_dropped() {
    let mut state = ready(3, SMALL);
    state.handle(LoopEvent::RedrawRequested { extent: SMALL });
    assert_eq!(
        state.handle(LoopEvent::SurfaceOutOfDate),
        LoopAction::Acquire { timeout_ms: 1000, retry: true }
    );
    assert_eq!(context(state).phase, FramePhase::Acquiring { extent: SMALL, retried: true });
    assert!(context(state).surface_stale);
    assert_eq!(state.handle(LoopEvent::SurfaceOutOfDate), LoopAction::Idle);
    assert_eq!(context(state).phase, FramePhase::Idle);
    assert!(context(state).surface_stale);
}

#[test]
fn retried_acquisition_rebuilds_and_draws() {
    let mut state = ready(3, SMALL);
    state.handle(LoopEvent::RedrawRequested { extent: LARGE });
    state.handle(LoopEvent::SurfaceOutOfDate);
    assert_eq!(
        state.handle(LoopEvent::SurfaceChanged { image_count: 2 }),
        LoopAction::Rebuild(FrameResources { framebuffer_count: 2, viewport: LARGE })
    );
    assert_eq!(
        state.handle(LoopEvent::ImageAcquired { index: 1 }),
        LoopAction::Draw { framebuffer: 1, viewport: LARGE }
    );
    assert_eq!(state, ready(2, LARGE));
}

#[test]
fn backend_answers_outside_a_frame_are_ignored() {
    let answers = [
        LoopEvent::SurfaceChanged { image_count: 9 },
        LoopEvent::SurfaceOutOfDate,
        LoopEvent::ImageAcquired { index: 0 },
        LoopEvent::AcquireTimedOut,
    ];
    for answer in answers {
        let mut state = ready(3, SMALL);
        assert_eq!(state.handle(answer), LoopAction::Idle);
        assert_eq!(state, ready(3, SMALL));
    }
}

#[test]
fn resize_during_a_frame_does_not_end_it() {
    let mut state = ready(3, SMALL);
    state.handle(LoopEvent::RedrawRequested { extent: SMALL });
    assert_eq!(state.handle(LoopEvent::Resized), LoopAction::InvalidateSurface);
    assert_eq!(context(state).phase, FramePhase::Acquiring { extent: SMALL, retried: false });
    assert!(context(state).surface_stale);
}

#[test]
fn no_draw_ever_happens_on_a_stale_surface() {
    let events = every_event();
    let n = events.len();
    for code in 0..n * n * n * n {
        let picks = [code % n, code / n % n, code / (n * n) % n, code / (n * n * n)];
        let mut state = ready(3, LARGE);
        for pick in picks {
            let before = state;
            let action = state.handle(events[pick]);
            if let LoopAction::Draw { framebuffer, viewport } = action {
                let held = context(before);
                assert!(!held.surface_stale);
                assert!(framebuffer < held.resources.framebuffer_count);
                assert_eq!(viewport, held.resources.viewport);
                assert_eq!(context(state).resources, held.resources);
            }
            if let LoopAction::Fail(_) = action {
                assert_eq!(state, RenderLoop::Closed);
            }
        }
    }
}
