//! What the window's events mean for the surface.
//!
//! The surface is valid, or stale. It becomes stale when the window is
//! resized, and when a frame reports an obsolete swapchain. A stale
//! surface is rebuilt in two steps, always both and always in the same
//! order, before the next event is handled; a frame that found the
//! surface stale is not drawn again.

use crate::drawing::context::{DrawingContextView, Resize};
use crate::drawing::error::{DrawingError, VulkanError};
use vstd::prelude::*;

verus! {

/// An event of the window, as far as drawing depends on it.
#[derive(Clone, Copy, Debug, PartialEq, Eq, Structural)]
pub enum WindowEvent {
    /// The window is asked to close.
    CloseRequested,
    /// The window is to be drawn again.
    RedrawRequested,
    /// The window has a new size.
    Resized,
    /// A key was pressed or released.
    KeyboardInput,
    /// Any other event.
    Other,
}

/// What an event asks for at once.
#[derive(Clone, Copy, Debug, PartialEq, Eq, Structural)]
pub enum Request {
    /// Leave the event loop.
    Exit,
    /// Attempt one frame.
    Render,
}

/// A step of a rebuild.
#[derive(Clone, Copy, Debug, PartialEq, Eq, Structural)]
pub enum RebuildStep {
    /// Replace the swapchain and its framebuffers.
    RevokeSwapchain,
    /// Replace the pipeline, whose viewport has the window's size.
    ResizeViewport,
}

impl RebuildStep {
    /// The drawing context after this step is made, for the window's
    /// size and the new swapchain's images that `resize` holds.
    pub open spec fn apply(self, context: DrawingContextView, resize: Resize) -> DrawingContextView {
        match self {
            RebuildStep::RevokeSwapchain => context.revoke_swapchain(
                resize.dimensions,
                resize.image_count,
            ),
            RebuildStep::ResizeViewport => context.resize_viewport(resize.dimensions),
        }
    }
}

/// The drawing context after each of `steps` is made, in order.
pub open spec fn apply_all(
    steps: Seq<RebuildStep>,
    context: DrawingContextView,
    resize: Resize,
) -> DrawingContextView
    decreases steps.len(),
{
    if steps.len() == 0 {
        context
    } else {
        steps.last().apply(apply_all(steps.drop_last(), context, resize), resize)
    }
}

/// Whether the surface is stale, and why.
#[derive(Clone, Copy, Debug, PartialEq, Eq, Structural)]
pub struct SurfaceState {
    /// The window was resized since the last rebuild.
    pub window_resized: bool,
    /// A frame found the swapchain obsolete since the last rebuild.
    pub need_recreate_swapchain: bool,
}

/// The steps of a rebuild, in their order.
pub open spec fn spec_rebuild_steps() -> Seq<RebuildStep> {
    seq![RebuildStep::RevokeSwapchain, RebuildStep::ResizeViewport]
}

impl SurfaceState {
    /// The surface is stale: it has to be rebuilt before it is drawn to.
    pub open spec fn is_stale(self) -> bool {
        self.window_resized || self.need_recreate_swapchain
    }

    /// The valid surface.
    pub open spec fn valid() -> SurfaceState {
        SurfaceState { window_resized: false, need_recreate_swapchain: false }
    }

    /// The state after `event`.
    pub open spec fn after_event(self, event: WindowEvent) -> SurfaceState {
        if event == WindowEvent::Resized {
            SurfaceState { window_resized: true, ..self }
        } else {
            self
        }
    }

    /// What `event` asks for at once.
    pub open spec fn request(event: WindowEvent) -> Option<Request> {
        match event {
            WindowEvent::CloseRequested => Some(Request::Exit),
            WindowEvent::RedrawRequested => Some(Request::Render),
            _ => None,
        }
    }

    /// The state after a frame ended with `outcome`.
    pub open spec fn after_frame(self, outcome: Result<(), DrawingError>) -> SurfaceState {
        if outcome == Err::<(), DrawingError>(DrawingError::ObsoleteSwapchain) {
            SurfaceState { need_recreate_swapchain: true, ..self }
        } else {
            self
        }
    }

    /// The steps due in this state: those of a rebuild where the surface
    /// is stale, none where it is valid.
    pub open spec fn steps_due(self) -> Seq<RebuildStep> {
        if self.is_stale() {
            spec_rebuild_steps()
        } else {
            Seq::empty()
        }
    }

    /// The state of a surface that was just made.
    pub fn new() -> (state: SurfaceState)
        ensures
            state == SurfaceState::valid(),
            !state.is_stale(),
    {
        SurfaceState { window_resized: false, need_recreate_swapchain: false }
    }

    /// Takes note of an event of the window. A request to close asks to
    /// leave; a request to redraw asks for one frame; a new size makes
    /// the surface stale; nothing else matters.
    pub fn window_event(&mut self, event: WindowEvent) -> (request: Option<Request>)
        ensures
            *final(self) == old(self).after_event(event),
            request == SurfaceState::request(event),
    {
        match event {
            WindowEvent::CloseRequested => Some(Request::Exit),
            WindowEvent::RedrawRequested => Some(Request::Render),
            WindowEvent::Resized => {
                self.window_resized = true;
                None
            },
            WindowEvent::KeyboardInput => None,
            WindowEvent::Other => None,
        }
    }

    /// Takes note of how a frame ended. An obsolete swapchain makes the
    /// surface stale, and drawing goes on. An error of the device is
    /// returned: drawing cannot go on.
    pub fn rendered(&mut self, outcome: Result<(), DrawingError>) -> (fatal: Result<
        (),
        VulkanError,
    >)
        ensures
            *final(self) == old(self).after_frame(outcome),
            fatal is Err <==> outcome matches Err(DrawingError::VulkanError(_)),
            outcome matches Err(DrawingError::VulkanError(error)) ==> fatal == Err::<
                (),
                VulkanError,
            >(error),
    {
        match outcome {
            Ok(()) => Ok(()),
            Err(DrawingError::ObsoleteSwapchain) => {
                self.need_recreate_swapchain = true;
                Ok(())
            },
            Err(DrawingError::VulkanError(error)) => Err(error),
        }
    }

    /// The steps to make before the next event is handled, in their
    /// order. Once they are made the surface is valid.
    pub fn rebuild(&mut self) -> (steps: Vec<RebuildStep>)
        ensures
            steps@ == old(self).steps_due(),
            *final(self) == SurfaceState::valid(),
    {
        let mut steps: Vec<RebuildStep> = Vec::new();
        if self.window_resized || self.need_recreate_swapchain {
            steps.push(RebuildStep::RevokeSwapchain);
            steps.push(RebuildStep::ResizeViewport);
        }
        self.window_resized = false;
        self.need_recreate_swapchain = false;
        assert(steps@ =~= old(self).steps_due());
        steps
    }
}

/// A new size of the window is followed by both steps of a rebuild, the
/// swapchain first and the pipeline second, whatever the state was.
pub proof fn resize_rebuilds_in_order(state: SurfaceState)
    ensures
        state.after_event(WindowEvent::Resized).steps_due() == seq![
            RebuildStep::RevokeSwapchain,
            RebuildStep::ResizeViewport,
        ],
{
}

/// A frame that found the swapchain obsolete is followed by the same two
/// steps, and asks for no other frame.
pub proof fn obsolete_frame_rebuilds_in_order(state: SurfaceState)
    ensures
        state.after_frame(Err(DrawingError::ObsoleteSwapchain)).steps_due() == seq![
            RebuildStep::RevokeSwapchain,
            RebuildStep::ResizeViewport,
        ],
{
}

/// A valid surface stays valid, and no step is due, as long as the
/// window keeps its size and the frames succeed. A request to redraw asks
/// for one frame.
pub proof fn valid_surface_stays_valid(event: WindowEvent)
    requires
        event != WindowEvent::Resized,
    ensures
        SurfaceState::valid().after_event(event) == SurfaceState::valid(),
        SurfaceState::valid().after_frame(Ok(())) == SurfaceState::valid(),
        SurfaceState::valid().steps_due() == Seq::<RebuildStep>::empty(),
        SurfaceState::request(WindowEvent::RedrawRequested) == Some(Request::Render),
{
}

/// Once the steps due for a stale surface are made, in their order, the
/// images, the framebuffers and the viewport all have the window's size,
/// whatever the drawing context was before.
pub proof fn stale_surface_is_rebuilt_to_fit(
    state: SurfaceState,
    context: DrawingContextView,
    resize: Resize,
)
    requires
        state.is_stale(),
    ensures
        apply_all(state.steps_due(), context, resize) == context.rebuild(resize),
        apply_all(state.steps_due(), context, resize).fits(resize.dimensions),
{
    let steps = state.steps_due();
    assert(steps.drop_last() =~= seq![RebuildStep::RevokeSwapchain]);
    assert(steps.drop_last().drop_last() =~= Seq::<RebuildStep>::empty());
    assert(apply_all(steps.drop_last().drop_last(), context, resize) == context);
    assert(apply_all(steps.drop_last(), context, resize) == context.revoke_swapchain(
        resize.dimensions,
        resize.image_count,
    ));
}

/// A valid surface has no step due, and its drawing context stays as it
/// is.
pub proof fn valid_surface_is_left_alone(context: DrawingContextView, resize: Resize)
    ensures
        apply_all(SurfaceState::valid().steps_due(), context, resize) == context,
{
}

} // verus!
