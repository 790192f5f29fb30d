use radiance_cascades::drawing::error::{DrawingError, VulkanError};
use radiance_cascades::events::{RebuildStep, Request, SurfaceState, WindowEvent};

const BOTH_STEPS: [RebuildStep; 2] = [RebuildStep::RevokeSwapchain, RebuildStep::ResizeViewport];

#[test]
fn out_of_date_makes_the_swapchain_obsolete() {
    assert_eq!(DrawingError::from(VulkanError::OutOfDate), DrawingError::ObsoleteSwapchain);
    assert!(DrawingError::from(VulkanError::OutOfDate).is_recoverable());
}

#[test]
fn other_errors_are_kept() {
    for error in [
        VulkanError::NotReady,
        VulkanError::Timeout,
        VulkanError::OutOfHostMemory,
        VulkanError::OutOfDeviceMemory,
        VulkanError::DeviceLost,
        VulkanError::SurfaceLost,
        VulkanError::FullScreenExclusiveModeLost,
        VulkanError::Other,
    ] {
        assert_eq!(DrawingError::from(error), DrawingError::VulkanError(error));
        assert!(!DrawingError::from(error).is_recoverable());
    }
}

#[test]
fn new_surface_is_valid() {
    let mut state = SurfaceState::new();
    assert_eq!(state, SurfaceState { window_resized: false, need_recreate_swapchain: false });
    assert_eq!(state.rebuild(), Vec::new());
}

#[test]
fn close_asks_to_exit() {
    let mut state = SurfaceState::new();
    assert_eq!(state.window_event(WindowEvent::CloseRequested), Some(Request::Exit));
    assert_eq!(state, SurfaceState::new());
}

#[test]
fn redraw_asks_for_one_frame() {
    let mut state = SurfaceState::new();
    assert_eq!(state.window_event(WindowEvent::RedrawRequested), Some(Request::Render));
    assert_eq!(state, SurfaceState::new());
    assert_eq!(state.rebuild(), Vec::new());
}

#[test]
fn keys_and_other_events_ask_for_nothing() {
    let mut state = SurfaceState::new();
    assert_eq!(state.window_event(WindowEvent::KeyboardInput), None);
    assert_eq!(state.window_event(WindowEvent::Other), None);
    assert_eq!(state, SurfaceState::new());
    assert_eq!(state.rebuild(), Vec::new());
}

#[test]
fn resize_is_followed_by_both_steps_in_order() {
    let mut state = SurfaceState::new();
    assert_eq!(state.window_event(WindowEvent::Resized), None);
    assert_eq!(state, SurfaceState { window_resized: true, need_recreate_swapchain: false });
    assert_eq!(state.rebuild(), BOTH_STEPS.to_vec());
    assert_eq!(state, SurfaceState::new());
    assert_eq!(state.rebuild(), Vec::new());
}

#[test]
fn obsolete_swapchain_is_followed_by_both_steps_in_order() {
    let mut state = SurfaceState::new();
    assert_eq!(state.rendered(Err(DrawingError::ObsoleteSwapchain)), Ok(()));
    assert_eq!(state, SurfaceState { window_resized: false, need_recreate_swapchain: true });
    assert_eq!(state.rebuild(), BOTH_STEPS.to_vec());
    assert_eq!(state, SurfaceState::new());
}

#[test]
fn resize_and_obsolete_swapchain_rebuild_once() {
    let mut state = SurfaceState::new();
    state.window_event(WindowEvent::Resized);
    assert_eq!(state.rendered(Err(DrawingError::ObsoleteSwapchain)), Ok(()));
    assert_eq!(state.rebuild(), BOTH_STEPS.to_vec());
    assert_eq!(state.rebuild(), Vec::new());
}

#[test]
fn good_frame_changes_nothing() {
    let mut state = SurfaceState::new();
    assert_eq!(state.rendered(Ok(())), Ok(()));
    assert_eq!(state, SurfaceState::new());
}

#[test]
fn device_error_is_fatal() {
    let mut state = SurfaceState::new();
    assert_eq!(
        state.rendered(Err(DrawingError::VulkanError(VulkanError::DeviceLost))),
        Err(VulkanError::DeviceLost)
    );
    assert_eq!(state, SurfaceState::new());
}
