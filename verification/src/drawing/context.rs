//! The swapchain, its framebuffers and the pipeline, and how they are
//! rebuilt when the surface changes.
//!
//! The viewport is baked into the pipeline, so a change of the window's
//! size takes two steps, in this order: the swapchain and its
//! framebuffers are rebuilt first, the pipeline second. After both, the
//! images, the framebuffers and the viewport all have the window's size.

use crate::math::{ONE, ZERO};
use vstd::prelude::*;

verus! {

/// How finished images reach the screen.
#[derive(Clone, Copy, Debug, PartialEq, Eq, Structural)]
pub enum PresentMode {
    /// At once, tearing allowed.
    Immediate,
    /// At the next refresh, the newest image replacing one that waits:
    /// low latency, and drawing never blocks.
    Mailbox,
    /// At the next refresh, in the order drawn: drawing blocks while the
    /// queue is full. Every surface supports it.
    Fifo,
    /// As `Fifo`, but at once where a refresh was missed.
    FifoRelaxed,
}

/// How the surface is blended with what lies behind the window.
#[derive(Clone, Copy, Debug, PartialEq, Eq, Structural)]
pub enum CompositeAlpha {
    /// Not at all.
    Opaque,
    /// By its alpha, the colours already multiplied by it.
    PreMultiplied,
    /// By its alpha, the colours not yet multiplied by it.
    PostMultiplied,
    /// As the window system decides.
    Inherit,
}

/// A pixel format, by its number.
#[derive(Clone, Copy, Debug, PartialEq, Eq, Structural)]
pub struct Format(pub i32);

/// What a surface can do, as far as the swapchain depends on it.
#[derive(Clone, Debug, PartialEq, Eq)]
pub struct SurfaceCapabilities {
    /// The least number of images that a swapchain must have.
    pub min_image_count: u32,
    /// The greatest number of images that a swapchain may have, if
    /// there is a limit.
    pub max_image_count: Option<u32>,
    /// The blending modes that the surface supports, in its own order.
    pub supported_composite_alpha: Vec<CompositeAlpha>,
    /// The present modes that the surface offers.
    pub compatible_present_modes: Vec<PresentMode>,
}

/// What a swapchain is created with.
#[derive(Clone, Copy, Debug, PartialEq, Eq)]
pub struct SwapchainCreateInfo {
    /// The number of images asked for.
    pub min_image_count: u32,
    /// The format of the images.
    pub image_format: Format,
    /// Width and height of the images, in pixels.
    pub image_extent: [u32; 2],
    /// How the surface is blended.
    pub composite_alpha: CompositeAlpha,
    /// How images reach the screen.
    pub present_mode: PresentMode,
}

/// A swapchain: what it was created with, and how many images the device
/// made for it. The images are numbered from zero.
#[derive(Clone, Copy, Debug, PartialEq, Eq)]
pub struct Swapchain {
    /// What it was created with.
    pub create_info: SwapchainCreateInfo,
    /// The number of its images.
    pub image_count: usize,
}

/// A framebuffer: one image of the swapchain as the only colour
/// attachment.
#[derive(Clone, Copy, Debug, PartialEq, Eq)]
pub struct Framebuffer {
    /// The number of the image that it wraps.
    pub image: usize,
    /// Width and height of that image, in pixels.
    pub extent: [u32; 2],
}

/// The rectangle of the framebuffer that is drawn to.
#[derive(Clone, Copy, Debug, PartialEq, Eq)]
pub struct Viewport {
    /// Its upper left corner, in pixels.
    pub offset: [u32; 2],
    /// Its width and height, in pixels.
    pub extent: [u32; 2],
    /// The least and the greatest depth, each by its bit pattern.
    pub depth_range: [u32; 2],
}

/// The graphics pipeline, as far as it depends on the surface: the
/// viewport is fixed when the pipeline is built.
#[derive(Clone, Copy, Debug, PartialEq, Eq)]
pub struct GraphicsPipeline {
    /// The viewport that every draw goes to.
    pub viewport: Viewport,
}

/// `value` brought into the range from `low` to `high`.
pub open spec fn spec_clamp(value: int, low: int, high: int) -> int {
    if value < low {
        low
    } else if value > high {
        high
    } else {
        value
    }
}

/// The greatest number of images, where a surface that names no limit
/// has the greatest number there is.
pub open spec fn spec_image_limit(max_image_count: Option<u32>) -> int {
    match max_image_count {
        Some(max) => max as int,
        None => u32::MAX as int,
    }
}

/// The number of images to ask for: one more than the least, if the
/// surface allows that many.
pub open spec fn spec_image_count(min_image_count: u32, max_image_count: Option<u32>) -> int {
    spec_clamp(min_image_count + 1, min_image_count as int, spec_image_limit(max_image_count))
}

/// The present mode to ask for: `Mailbox` where the surface offers it,
/// `Fifo` where it does not.
pub open spec fn spec_present_mode(modes: Seq<PresentMode>) -> PresentMode {
    if modes.contains(PresentMode::Mailbox) {
        PresentMode::Mailbox
    } else {
        PresentMode::Fifo
    }
}

/// The viewport that covers a window of the given size.
pub open spec fn spec_viewport(dimensions: [u32; 2]) -> Viewport {
    Viewport { offset: [0, 0], extent: dimensions, depth_range: [ZERO, ONE] }
}

/// One framebuffer for each of `image_count` images of size `extent`, in
/// the order of the images.
pub open spec fn spec_framebuffers(extent: [u32; 2], image_count: usize) -> Seq<Framebuffer> {
    Seq::new(image_count as nat, |i: int| Framebuffer { image: i as usize, extent })
}

/// The number of images asked for lies between the surface's least and
/// one more than that, and within the surface's limit, for every surface
/// whose limit is not under its least.
pub proof fn image_count_in_range(min_image_count: u32, max_image_count: Option<u32>)
    requires
        max_image_count matches Some(max) ==> min_image_count <= max,
    ensures
        min_image_count <= spec_image_count(min_image_count, max_image_count) <= min_image_count
            + 1,
        spec_image_count(min_image_count, max_image_count) <= spec_image_limit(max_image_count),
{
}

/// The number of images to ask for.
pub fn get_image_count(min_image_count: u32, max_image_count: Option<u32>) -> (count: u32)
    ensures
        count == spec_image_count(min_image_count, max_image_count),
{
    let limit = match max_image_count {
        Some(max) => max,
        None => u32::MAX,
    };
    if min_image_count < limit {
        min_image_count + 1
    } else {
        limit
    }
}

/// The present mode to ask for.
pub fn get_present_mode(modes: &Vec<PresentMode>) -> (mode: PresentMode)
    ensures
        mode == spec_present_mode(modes@),
{
    let mut index: usize = 0;
    while index < modes.len()
        invariant
            index <= modes.len(),
            forall|j: int| 0 <= j < index ==> modes@[j] != PresentMode::Mailbox,
        decreases modes.len() - index,
    {
        match modes[index] {
            PresentMode::Mailbox => {
                assert(modes@[index as int] == PresentMode::Mailbox);
                return PresentMode::Mailbox;
            },
            _ => {},
        }
        index += 1;
    }
    PresentMode::Fifo
}

/// What the swapchain of a surface is created with, for a window of size
/// `dimensions`.
///
/// The images have the window's size and the first format of `formats`;
/// the surface is blended in the first way that it supports. `None`
/// means that the surface supports no blending mode or reports no
/// format, so that no swapchain can be made for it.
pub fn get_swapchain(
    caps: &SurfaceCapabilities,
    formats: &Vec<Format>,
    dimensions: [u32; 2],
) -> (info: Option<SwapchainCreateInfo>)
    ensures
        info is None <==> caps.supported_composite_alpha@.len() == 0 || formats@.len() == 0,
        info matches Some(i) ==> i == (SwapchainCreateInfo {
            min_image_count: spec_image_count(caps.min_image_count, caps.max_image_count) as u32,
            image_format: formats@[0],
            image_extent: dimensions,
            composite_alpha: caps.supported_composite_alpha@[0],
            present_mode: spec_present_mode(caps.compatible_present_modes@),
        }),
{
    if caps.supported_composite_alpha.len() == 0 || formats.len() == 0 {
        return None;
    }
    Some(
        SwapchainCreateInfo {
            min_image_count: get_image_count(caps.min_image_count, caps.max_image_count),
            image_format: formats[0],
            image_extent: dimensions,
            composite_alpha: caps.supported_composite_alpha[0],
            present_mode: get_present_mode(&caps.compatible_present_modes),
        },
    )
}

/// One framebuffer for each image of `swapchain`, in the order of the
/// images.
pub fn get_framebuffers(swapchain: &Swapchain) -> (framebuffers: Vec<Framebuffer>)
    ensures
        framebuffers@ == spec_framebuffers(
            swapchain.create_info.image_extent,
            swapchain.image_count,
        ),
        framebuffers@.len() == swapchain.image_count,
{
    let extent = swapchain.create_info.image_extent;
    let mut framebuffers: Vec<Framebuffer> = Vec::new();
    let mut image: usize = 0;
    while image < swapchain.image_count
        invariant
            image <= swapchain.image_count,
            framebuffers@ == spec_framebuffers(extent, image),
        decreases swapchain.image_count - image,
    {
        framebuffers.push(Framebuffer { image, extent });
        image += 1;
        assert(framebuffers@ =~= spec_framebuffers(extent, image));
    }
    framebuffers
}

/// The pipeline whose viewport covers a window of size `dimensions`.
pub fn get_pipeline(dimensions: [u32; 2]) -> (pipeline: GraphicsPipeline)
    ensures
        pipeline.viewport == spec_viewport(dimensions),
{
    GraphicsPipeline {
        viewport: Viewport { offset: [0, 0], extent: dimensions, depth_range: [ZERO, ONE] },
    }
}

/// The part of the drawing state that follows the surface: the
/// swapchain, one framebuffer for each of its images, and the pipeline.
#[derive(Debug, PartialEq, Eq)]
pub struct DrawingContext {
    swapchain: Swapchain,
    framebuffers: Vec<Framebuffer>,
    pipeline: GraphicsPipeline,
}

/// A drawing context as a mathematical value.
pub struct DrawingContextView {
    /// The swapchain.
    pub swapchain: Swapchain,
    /// The framebuffers, in the order of the images.
    pub framebuffers: Seq<Framebuffer>,
    /// The pipeline.
    pub pipeline: GraphicsPipeline,
}

/// One change of the surface: the window's new size, and the number of
/// images that the device made for the new swapchain.
pub struct Resize {
    /// The window's new size.
    pub dimensions: [u32; 2],
    /// The number of images of the new swapchain.
    pub image_count: usize,
}

impl DrawingContextView {
    /// There is one framebuffer for each image of the swapchain, in the
    /// order of the images, and of the images' size.
    pub open spec fn wf(self) -> bool {
        self.framebuffers == spec_framebuffers(
            self.swapchain.create_info.image_extent,
            self.swapchain.image_count,
        )
    }

    /// Images, framebuffers and viewport all have the size `dimensions`.
    pub open spec fn fits(self, dimensions: [u32; 2]) -> bool {
        &&& self.wf()
        &&& self.swapchain.create_info.image_extent == dimensions
        &&& self.pipeline.viewport == spec_viewport(dimensions)
    }

    /// The context made for a new swapchain.
    pub open spec fn created(create_info: SwapchainCreateInfo, image_count: usize) -> Self {
        DrawingContextView {
            swapchain: Swapchain { create_info, image_count },
            framebuffers: spec_framebuffers(create_info.image_extent, image_count),
            pipeline: GraphicsPipeline { viewport: spec_viewport(create_info.image_extent) },
        }
    }

    /// The first step of a rebuild: a new swapchain, created as the old
    /// one was but for the size of its images, and new framebuffers. The
    /// pipeline stays.
    pub open spec fn revoke_swapchain(self, dimensions: [u32; 2], image_count: usize) -> Self {
        DrawingContextView {
            swapchain: Swapchain {
                create_info: SwapchainCreateInfo {
                    image_extent: dimensions,
                    ..self.swapchain.create_info
                },
                image_count,
            },
            framebuffers: spec_framebuffers(dimensions, image_count),
            pipeline: self.pipeline,
        }
    }

    /// The second step of a rebuild: a new pipeline. The swapchain and
    /// the framebuffers stay.
    pub open spec fn resize_viewport(self, dimensions: [u32; 2]) -> Self {
        DrawingContextView {
            pipeline: GraphicsPipeline { viewport: spec_viewport(dimensions) },
            ..self
        }
    }

    /// A whole rebuild: the first step, then the second.
    pub open spec fn rebuild(self, resize: Resize) -> Self {
        self.revoke_swapchain(resize.dimensions, resize.image_count).resize_viewport(
            resize.dimensions,
        )
    }

    /// The context after one rebuild for each of `resizes`, in order.
    pub open spec fn rebuild_all(self, resizes: Seq<Resize>) -> Self
        decreases resizes.len(),
    {
        if resizes.len() == 0 {
            self
        } else {
            self.rebuild_all(resizes.drop_last()).rebuild(resizes.last())
        }
    }
}

impl View for DrawingContext {
    type V = DrawingContextView;

    closed spec fn view(&self) -> DrawingContextView {
        DrawingContextView {
            swapchain: self.swapchain,
            framebuffers: self.framebuffers@,
            pipeline: self.pipeline,
        }
    }
}

impl Clone for DrawingContext {
    /// A context equal to this one.
    fn clone(&self) -> (context: DrawingContext)
        ensures
            context@ == self@,
    {
        proof {
            use_type_invariant(self);
        }
        DrawingContext {
            swapchain: self.swapchain,
            framebuffers: get_framebuffers(&self.swapchain),
            pipeline: self.pipeline,
        }
    }
}

impl DrawingContext {
    #[verifier::type_invariant]
    spec fn inv(self) -> bool {
        self@.wf()
    }

    /// The context for a swapchain that was created with `create_info`
    /// and got `image_count` images: a framebuffer for each image, and a
    /// pipeline whose viewport has the images' size.
    pub fn new(create_info: SwapchainCreateInfo, image_count: usize) -> (context: DrawingContext)
        ensures
            context@ == DrawingContextView::created(create_info, image_count),
            context@.fits(create_info.image_extent),
            context@.framebuffers.len() == image_count,
    {
        let swapchain = Swapchain { create_info, image_count };
        let framebuffers = get_framebuffers(&swapchain);
        let pipeline = get_pipeline(create_info.image_extent);
        DrawingContext { swapchain, framebuffers, pipeline }
    }

    /// What the next swapchain is created with, for a window of size
    /// `dimensions`: what the present one was created with, but for the
    /// size of the images.
    pub fn recreate_info(&self, dimensions: [u32; 2]) -> (info: SwapchainCreateInfo)
        ensures
            info == (SwapchainCreateInfo {
                image_extent: dimensions,
                ..self@.swapchain.create_info
            }),
    {
        SwapchainCreateInfo { image_extent: dimensions, ..self.swapchain.create_info }
    }

    /// First step of a rebuild, for a window of size `dimensions` and a
    /// new swapchain of `image_count` images: the swapchain is replaced
    /// and the framebuffers are made anew, one for each new image. The
    /// pipeline is not touched.
    pub fn revoke_swapchain(self, dimensions: [u32; 2], image_count: usize) -> (context:
        DrawingContext)
        ensures
            context@ == self@.revoke_swapchain(dimensions, image_count),
            context@.wf(),
            context@.framebuffers.len() == context@.swapchain.image_count,
            context@.pipeline == self@.pipeline,
    {
        let swapchain = Swapchain {
            create_info: SwapchainCreateInfo {
                image_extent: dimensions,
                ..self.swapchain.create_info
            },
            image_count,
        };
        let framebuffers = get_framebuffers(&swapchain);
        DrawingContext { swapchain, framebuffers, pipeline: self.pipeline }
    }

    /// Second step of a rebuild, for a window of size `dimensions`: the
    /// pipeline is built anew with a viewport of that size. The
    /// swapchain and the framebuffers are not touched.
    pub fn resize_viewport(self, dimensions: [u32; 2]) -> (context: DrawingContext)
        ensures
            context@ == self@.resize_viewport(dimensions),
            context@.wf(),
            context@.pipeline.viewport.extent == dimensions,
            context@.swapchain == self@.swapchain,
            context@.framebuffers == self@.framebuffers,
    {
        proof {
            use_type_invariant(&self);
        }
        let pipeline = get_pipeline(dimensions);
        DrawingContext { swapchain: self.swapchain, framebuffers: self.framebuffers, pipeline }
    }

    /// The swapchain.
    pub fn swapchain(&self) -> (swapchain: Swapchain)
        ensures
            swapchain == self@.swapchain,
    {
        self.swapchain
    }

    /// The framebuffers, in the order of the images.
    pub fn framebuffers(&self) -> (framebuffers: &Vec<Framebuffer>)
        ensures
            framebuffers@ == self@.framebuffers,
            self@.wf(),
    {
        proof {
            use_type_invariant(self);
        }
        &self.framebuffers
    }

    /// The pipeline.
    pub fn pipeline(&self) -> (pipeline: GraphicsPipeline)
        ensures
            pipeline == self@.pipeline,
    {
        self.pipeline
    }

    /// Whether images, framebuffers and viewport all have the size
    /// `dimensions`.
    pub fn fits(&self, dimensions: [u32; 2]) -> (fits: bool)
        ensures
            fits == self@.fits(dimensions),
    {
        proof {
            use_type_invariant(self);
        }
        let extent = self.swapchain.create_info.image_extent;
        let viewport = self.pipeline.viewport;
        let fits = extent[0] == dimensions[0] && extent[1] == dimensions[1]
            && viewport.offset[0] == 0 && viewport.offset[1] == 0
            && viewport.extent[0] == dimensions[0] && viewport.extent[1] == dimensions[1]
            && viewport.depth_range[0] == ZERO && viewport.depth_range[1] == ONE;
        proof {
            assert(fits ==> extent =~= dimensions);
            assert(fits ==> viewport.offset =~= [0u32, 0u32]);
            assert(fits ==> viewport.extent =~= dimensions);
            assert(fits ==> viewport.depth_range =~= [ZERO, ONE]);
        }
        fits
    }
}

/// After the two steps of a rebuild, in their order, the images, the
/// framebuffers and the viewport all have the window's size, and there is
/// one framebuffer for each image.
pub proof fn rebuild_fits(context: DrawingContextView, resize: Resize)
    ensures
        context.rebuild(resize).fits(resize.dimensions),
        context.rebuild(resize).framebuffers.len() == context.rebuild(resize).swapchain.image_count,
        context.rebuild(resize).framebuffers.len() == resize.image_count,
{
}

/// After any number of rebuilds there is one framebuffer for each image
/// of the swapchain.
pub proof fn rebuilds_keep_one_framebuffer_per_image(
    context: DrawingContextView,
    resizes: Seq<Resize>,
)
    requires
        context.wf(),
    ensures
        context.rebuild_all(resizes).wf(),
        context.rebuild_all(resizes).framebuffers.len() == context.rebuild_all(
            resizes,
        ).swapchain.image_count,
    decreases resizes.len(),
{
    if resizes.len() > 0 {
        rebuild_fits(context.rebuild_all(resizes.drop_last()), resizes.last());
    }
}

/// After any number of rebuilds, and at least one, the viewport and the
/// images have the size that the window had at the last of them.
pub proof fn rebuilds_follow_window(context: DrawingContextView, resizes: Seq<Resize>)
    requires
        resizes.len() > 0,
    ensures
        context.rebuild_all(resizes).fits(resizes.last().dimensions),
        context.rebuild_all(resizes).pipeline.viewport.extent == resizes.last().dimensions,
{
    rebuild_fits(context.rebuild_all(resizes.drop_last()), resizes.last());
}

/// The first step alone leaves the viewport as it was: where the size
/// has changed, the pipeline is stale until the second step is made.
pub proof fn revoke_swapchain_keeps_viewport(
    context: DrawingContextView,
    dimensions: [u32; 2],
    image_count: usize,
)
    ensures
        context.revoke_swapchain(dimensions, image_count).pipeline == context.pipeline,
        context.revoke_swapchain(dimensions, image_count).fits(dimensions) <==> context.pipeline.viewport
            == spec_viewport(dimensions),
{
}

} // verus!
