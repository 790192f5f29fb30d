//! One frame: from the image that was acquired to the commands that are
//! submitted for it.
//!
//! A frame is attempted once. Where the surface turns out to be stale,
//! nothing is submitted and the caller is told to rebuild; the frame is
//! dropped, not tried again.

use crate::drawing::context::{
    spec_viewport, DrawingContext, DrawingContextView, Framebuffer, GraphicsPipeline,
};
use crate::drawing::error::{DrawingError, VulkanError};
use crate::drawing::objects::discretable::{
    discrete_light, discrete_wall, spec_discrete_light, spec_discrete_wall,
};
use crate::drawing::objects::{Light, Wall};
use crate::drawing::vulkan_helper::VulkanCore;
use crate::geometry::Vertex2D;
use crate::math::Vec2;
use vstd::prelude::*;

verus! {

/// Bit pattern of one tenth, the value of each component of the clear
/// colour.
pub const CLEAR: u32 = 0x3DCC_CCCD;

/// A command of a command buffer.
#[derive(Debug, PartialEq, Eq)]
pub enum Command {
    /// Begins the render pass on a framebuffer, which is first cleared.
    BeginRenderPass {
        /// The framebuffer drawn to.
        framebuffer: Framebuffer,
        /// Red, green, blue and alpha that it is cleared to.
        clear_value: [u32; 4],
    },
    /// Binds the graphics pipeline.
    BindPipelineGraphics {
        /// The pipeline.
        pipeline: GraphicsPipeline,
    },
    /// Binds a vertex buffer.
    BindVertexBuffers {
        /// The binding that the buffer goes to.
        first_binding: u32,
        /// What the buffer holds.
        vertices: Vec<Vertex2D>,
    },
    /// Draws without an index buffer.
    Draw {
        /// How many vertices are drawn.
        vertex_count: u32,
        /// How many instances are drawn.
        instance_count: u32,
        /// The first vertex drawn.
        first_vertex: u32,
        /// The first instance drawn.
        first_instance: u32,
    },
    /// Ends the render pass.
    EndRenderPass,
}

/// A command as a mathematical value.
pub enum CommandView {
    /// Begins the render pass on a framebuffer, which is first cleared.
    BeginRenderPass { framebuffer: Framebuffer, clear_value: [u32; 4] },
    /// Binds the graphics pipeline.
    BindPipelineGraphics { pipeline: GraphicsPipeline },
    /// Binds a vertex buffer.
    BindVertexBuffers { first_binding: u32, vertices: Seq<Vertex2D> },
    /// Draws without an index buffer.
    Draw { vertex_count: u32, instance_count: u32, first_vertex: u32, first_instance: u32 },
    /// Ends the render pass.
    EndRenderPass,
}

impl View for Command {
    type V = CommandView;

    open spec fn view(&self) -> CommandView {
        match *self {
            Command::BeginRenderPass { framebuffer, clear_value } => CommandView::BeginRenderPass {
                framebuffer,
                clear_value,
            },
            Command::BindPipelineGraphics { pipeline } => CommandView::BindPipelineGraphics {
                pipeline,
            },
            Command::BindVertexBuffers { first_binding, vertices } => {
                CommandView::BindVertexBuffers { first_binding, vertices: vertices@ }
            },
            Command::Draw { vertex_count, instance_count, first_vertex, first_instance } => {
                CommandView::Draw { vertex_count, instance_count, first_vertex, first_instance }
            },
            Command::EndRenderPass => CommandView::EndRenderPass,
        }
    }
}

/// The commands recorded for one object, to be submitted once.
#[derive(Debug, PartialEq, Eq)]
pub struct CommandBuffer {
    /// The queue family that the buffer is recorded for.
    pub queue_family_index: usize,
    /// The commands, in the order recorded.
    pub commands: Vec<Command>,
}

/// A command buffer as a mathematical value.
pub struct CommandBufferView {
    /// The queue family that the buffer is recorded for.
    pub queue_family_index: usize,
    /// The commands, in the order recorded.
    pub commands: Seq<CommandView>,
}

impl View for CommandBuffer {
    type V = CommandBufferView;

    open spec fn view(&self) -> CommandBufferView {
        CommandBufferView {
            queue_family_index: self.queue_family_index,
            commands: Seq::new(self.commands@.len(), |i: int| self.commands@[i]@),
        }
    }
}

/// What is done for one frame: the command buffers are submitted to the
/// one queue in their order, after the image is acquired; then the image
/// is presented; then the whole is waited for.
#[derive(Debug, PartialEq, Eq)]
pub struct Frame {
    /// The image that was acquired, drawn to and then presented.
    pub image_index: u32,
    /// The command buffers, in the order of submission.
    pub command_buffers: Vec<CommandBuffer>,
}

/// A frame as a mathematical value.
pub struct FrameView {
    /// The image that was acquired, drawn to and then presented.
    pub image_index: u32,
    /// The command buffers, in the order of submission.
    pub command_buffers: Seq<CommandBufferView>,
}

/// The views of command buffers.
pub open spec fn views(buffers: Seq<CommandBuffer>) -> Seq<CommandBufferView> {
    Seq::new(buffers.len(), |i: int| buffers[i]@)
}

impl View for Frame {
    type V = FrameView;

    open spec fn view(&self) -> FrameView {
        FrameView {
            image_index: self.image_index,
            command_buffers: views(self.command_buffers@),
        }
    }
}

/// The command buffer that draws `vertices`: the render pass begins on
/// `framebuffer`, cleared to the fixed colour; the pipeline is bound; the
/// vertices are bound; all of them are drawn, once, from the first; the
/// render pass ends.
pub open spec fn spec_command_buffer(
    queue_family_index: usize,
    framebuffer: Framebuffer,
    pipeline: GraphicsPipeline,
    vertices: Seq<Vertex2D>,
) -> CommandBufferView {
    CommandBufferView {
        queue_family_index,
        commands: seq![
            CommandView::BeginRenderPass { framebuffer, clear_value: [CLEAR, CLEAR, CLEAR, CLEAR] },
            CommandView::BindPipelineGraphics { pipeline },
            CommandView::BindVertexBuffers { first_binding: 0, vertices },
            CommandView::Draw {
                vertex_count: vertices.len() as u32,
                instance_count: 1,
                first_vertex: 0,
                first_instance: 0,
            },
            CommandView::EndRenderPass,
        ],
    }
}

/// Records the command buffer that draws `vertices` to the framebuffer
/// of image `frame_idx`.
pub fn get_command_buffer(
    vk_core: &VulkanCore,
    vk_ctx: &DrawingContext,
    frame_idx: u32,
    vertices: Vec<Vertex2D>,
) -> (buffer: CommandBuffer)
    requires
        frame_idx < vk_ctx@.framebuffers.len(),
        vertices@.len() <= u32::MAX,
    ensures
        buffer@ == spec_command_buffer(
            vk_core.spec_queue_family_index(),
            vk_ctx@.framebuffers[frame_idx as int],
            vk_ctx@.pipeline,
            vertices@,
        ),
{
    let framebuffer = vk_ctx.framebuffers()[frame_idx as usize];
    let pipeline = vk_ctx.pipeline();
    let buffer_len = vertices.len();
    let ghost drawn = vertices@;
    let mut commands: Vec<Command> = Vec::new();
    commands.push(
        Command::BeginRenderPass { framebuffer, clear_value: [CLEAR, CLEAR, CLEAR, CLEAR] },
    );
    commands.push(Command::BindPipelineGraphics { pipeline });
    commands.push(Command::BindVertexBuffers { first_binding: 0, vertices });
    commands.push(
        Command::Draw {
            vertex_count: buffer_len as u32,
            instance_count: 1,
            first_vertex: 0,
            first_instance: 0,
        },
    );
    commands.push(Command::EndRenderPass);
    let buffer = CommandBuffer { queue_family_index: vk_core.queue_family_index(), commands };
    assert(buffer@.commands =~= spec_command_buffer(
        vk_core.spec_queue_family_index(),
        vk_ctx@.framebuffers[frame_idx as int],
        vk_ctx@.pipeline,
        drawn,
    ).commands);
    buffer
}

/// The scene and the drawing state.
#[derive(Debug, PartialEq, Eq)]
pub struct Renderer {
    /// Size of the viewport.
    viewport: Vec2,
    /// All the lights of the scene.
    lights: Vec<Light>,
    /// All the walls of the scene.
    walls: Vec<Wall>,
    vk_core: VulkanCore,
    vk_ctx: DrawingContext,
}

/// A renderer as a mathematical value.
pub struct RendererView {
    /// Size of the viewport.
    pub viewport: Vec2,
    /// All the lights of the scene, in the order added.
    pub lights: Seq<Light>,
    /// All the walls of the scene, in the order added.
    pub walls: Seq<Wall>,
    /// The device and the queue.
    pub vk_core: VulkanCore,
    /// The swapchain, the framebuffers and the pipeline.
    pub vk_ctx: DrawingContextView,
}

impl RendererView {
    /// The command buffer that draws `vertices` to the framebuffer of
    /// image `frame_idx`, with the pipeline as it is.
    pub open spec fn commands(self, frame_idx: u32, vertices: Seq<Vertex2D>) -> CommandBufferView {
        spec_command_buffer(
            self.vk_core.spec_queue_family_index(),
            self.vk_ctx.framebuffers[frame_idx as int],
            self.vk_ctx.pipeline,
            vertices,
        )
    }

    /// One command buffer for each light, in the order of the lights.
    pub open spec fn lights_commands(self, frame_idx: u32) -> Seq<CommandBufferView> {
        Seq::new(
            self.lights.len(),
            |i: int| self.commands(frame_idx, spec_discrete_light(self.lights[i])),
        )
    }

    /// One command buffer for each wall, in the order of the walls.
    pub open spec fn walls_commands(self, frame_idx: u32) -> Seq<CommandBufferView> {
        Seq::new(
            self.walls.len(),
            |i: int| self.commands(frame_idx, spec_discrete_wall(self.walls[i])),
        )
    }

    /// The frame drawn to image `frame_idx`: the lights first, then the
    /// walls.
    pub open spec fn frame(self, frame_idx: u32) -> FrameView {
        FrameView {
            image_index: frame_idx,
            command_buffers: self.lights_commands(frame_idx) + self.walls_commands(frame_idx),
        }
    }

    /// Whether a frame can be drawn to image `frame_idx`: the image has a
    /// framebuffer, or nothing is there to draw.
    pub open spec fn can_draw(self, frame_idx: u32) -> bool {
        self.lights.len() + self.walls.len() > 0 ==> frame_idx < self.vk_ctx.framebuffers.len()
    }

    /// What `render` returns for what the acquisition reported.
    pub open spec fn render(self, acquired: Result<(u32, bool), VulkanError>) -> Result<
        FrameView,
        DrawingError,
    > {
        match acquired {
            Err(error) => Err(DrawingError::spec_from(error)),
            Ok((_, true)) => Err(DrawingError::ObsoleteSwapchain),
            Ok((frame_idx, false)) => Ok(self.frame(frame_idx)),
        }
    }
}

impl View for Renderer {
    type V = RendererView;

    closed spec fn view(&self) -> RendererView {
        RendererView {
            viewport: self.viewport,
            lights: self.lights@,
            walls: self.walls@,
            vk_core: self.vk_core,
            vk_ctx: self.vk_ctx@,
        }
    }
}

/// What `render` returned, as a mathematical value.
pub open spec fn result_view(result: Result<Frame, DrawingError>) -> Result<
    FrameView,
    DrawingError,
> {
    match result {
        Ok(frame) => Ok(frame@),
        Err(error) => Err(error),
    }
}

impl Renderer {
    /// A renderer with an empty scene.
    pub fn new(viewport: Vec2, vk_core: VulkanCore, vk_ctx: DrawingContext) -> (renderer: Renderer)
        ensures
            renderer@ == (RendererView {
                viewport,
                lights: Seq::empty(),
                walls: Seq::empty(),
                vk_core,
                vk_ctx: vk_ctx@,
            }),
    {
        Renderer { viewport, lights: Vec::new(), walls: Vec::new(), vk_core, vk_ctx }
    }

    /// Adds a light to the scene, after those that are there.
    pub fn add_light(&mut self, light: Light)
        ensures
            final(self)@ == (RendererView {
                lights: old(self)@.lights.push(light),
                ..old(self)@
            }),
    {
        self.lights.push(light);
    }

    /// Adds a wall to the scene, after those that are there.
    pub fn add_walls(&mut self, wall: Wall)
        ensures
            final(self)@ == (RendererView { walls: old(self)@.walls.push(wall), ..old(self)@ }),
    {
        self.walls.push(wall);
    }

    /// Decides what is done for one frame, given what the acquisition of
    /// the next image reported: the number of the image and whether it
    /// is suboptimal, or the device's error.
    ///
    /// Where the surface is out of date, or the image is suboptimal, the
    /// swapchain is obsolete: nothing is to be submitted, and the caller
    /// rebuilds before the next frame. Any other error of the device is
    /// handed on, and ends drawing for good. Otherwise the frame holds
    /// one command buffer for each object, those of the lights before
    /// those of the walls.
    pub fn render(&self, acquired: Result<(u32, bool), VulkanError>) -> (result: Result<
        Frame,
        DrawingError,
    >)
        requires
            acquired matches Ok((frame_idx, false)) ==> self@.can_draw(frame_idx),
        ensures
            result_view(result) == self@.render(acquired),
            result is Ok <==> (acquired matches Ok((_, suboptimal)) && !suboptimal),
            acquired == Err::<(u32, bool), VulkanError>(VulkanError::OutOfDate) ==> result == Err::<
                Frame,
                DrawingError,
            >(DrawingError::ObsoleteSwapchain),
            acquired matches Ok((_, suboptimal)) && suboptimal ==> result == Err::<
                Frame,
                DrawingError,
            >(DrawingError::ObsoleteSwapchain),
    {
        let (image_idx, suboptimal) = match acquired {
            Ok(image) => image,
            Err(error) => {
                return Err(DrawingError::from(error));
            },
        };
        if suboptimal {
            return Err(DrawingError::ObsoleteSwapchain);
        }
        let mut command_buffers = self.render_lights_commands(image_idx);
        let mut wall_cmds = self.render_walls_commands(image_idx);
        command_buffers.append(&mut wall_cmds);
        let frame = Frame { image_index: image_idx, command_buffers };
        assert(frame@.command_buffers =~= self@.frame(image_idx).command_buffers);
        Ok(frame)
    }

    /// Whether a frame can be drawn to image `frame_idx`: the image has a
    /// framebuffer, or nothing is there to draw.
    pub fn can_draw(&self, frame_idx: u32) -> (can: bool)
        ensures
            can == self@.can_draw(frame_idx),
    {
        (self.lights.len() == 0 && self.walls.len() == 0) || (frame_idx as usize)
            < self.vk_ctx.framebuffers().len()
    }

    /// First step of a rebuild, for a window of size `dimensions` and a
    /// new swapchain of `image_count` images. The scene stays.
    pub fn revoke_swapchain(&mut self, dimensions: [u32; 2], image_count: usize)
        ensures
            final(self)@ == (RendererView {
                vk_ctx: old(self)@.vk_ctx.revoke_swapchain(dimensions, image_count),
                ..old(self)@
            }),
            final(self)@.vk_ctx.wf(),
    {
        let vk_ctx = self.vk_ctx.clone().revoke_swapchain(dimensions, image_count);
        self.vk_ctx = vk_ctx;
    }

    /// Second step of a rebuild, for a window of size `dimensions`. The
    /// scene stays.
    pub fn resize_viewport(&mut self, dimensions: [u32; 2])
        ensures
            final(self)@ == (RendererView {
                vk_ctx: old(self)@.vk_ctx.resize_viewport(dimensions),
                ..old(self)@
            }),
            final(self)@.vk_ctx.wf(),
    {
        let vk_ctx = self.vk_ctx.clone().resize_viewport(dimensions);
        self.vk_ctx = vk_ctx;
    }

    /// The lights of the scene, in the order added.
    pub fn lights(&self) -> (lights: &Vec<Light>)
        ensures
            lights@ == self@.lights,
    {
        &self.lights
    }

    /// The walls of the scene, in the order added.
    pub fn walls(&self) -> (walls: &Vec<Wall>)
        ensures
            walls@ == self@.walls,
    {
        &self.walls
    }

    /// Size of the viewport.
    pub fn viewport(&self) -> (viewport: Vec2)
        ensures
            viewport == self@.viewport,
    {
        self.viewport
    }

    /// The device and the queue.
    pub fn vk_core(&self) -> (vk_core: VulkanCore)
        ensures
            vk_core == self@.vk_core,
    {
        self.vk_core
    }

    /// The swapchain, the framebuffers and the pipeline.
    pub fn vk_ctx(&self) -> (vk_ctx: &DrawingContext)
        ensures
            vk_ctx@ == self@.vk_ctx,
    {
        &self.vk_ctx
    }

    fn render_walls_commands(&self, frame_idx: u32) -> (buffers: Vec<CommandBuffer>)
        requires
            self@.walls.len() > 0 ==> frame_idx < self@.vk_ctx.framebuffers.len(),
        ensures
            views(buffers@) == self@.walls_commands(frame_idx),
    {
        let mut buffers: Vec<CommandBuffer> = Vec::new();
        let mut index: usize = 0;
        while index < self.walls.len()
            invariant
                index <= self.walls.len(),
                self@.walls.len() > 0 ==> frame_idx < self@.vk_ctx.framebuffers.len(),
                buffers@.len() == index,
                forall|j: int|
                    0 <= j < index ==> (#[trigger] buffers@[j])@ == self@.commands(
                        frame_idx,
                        spec_discrete_wall(self@.walls[j]),
                    ),
            decreases self.walls.len() - index,
        {
            let vertexes = to_vec(discrete_wall(&self.walls[index]));
            buffers.push(get_command_buffer(&self.vk_core, &self.vk_ctx, frame_idx, vertexes));
            index += 1;
        }
        assert(views(buffers@) =~= self@.walls_commands(frame_idx));
        buffers
    }

    fn render_lights_commands(&self, frame_idx: u32) -> (buffers: Vec<CommandBuffer>)
        requires
            self@.lights.len() > 0 ==> frame_idx < self@.vk_ctx.framebuffers.len(),
        ensures
            views(buffers@) == self@.lights_commands(frame_idx),
    {
        let mut buffers: Vec<CommandBuffer> = Vec::new();
        let mut index: usize = 0;
        while index < self.lights.len()
            invariant
                index <= self.lights.len(),
                self@.lights.len() > 0 ==> frame_idx < self@.vk_ctx.framebuffers.len(),
                buffers@.len() == index,
                forall|j: int|
                    0 <= j < index ==> (#[trigger] buffers@[j])@ == self@.commands(
                        frame_idx,
                        spec_discrete_light(self@.lights[j]),
                    ),
            decreases self.lights.len() - index,
        {
            let vertexes = to_vec(discrete_light(&self.lights[index]));
            buffers.push(get_command_buffer(&self.vk_core, &self.vk_ctx, frame_idx, vertexes));
            index += 1;
        }
        assert(views(buffers@) =~= self@.lights_commands(frame_idx));
        buffers
    }
}

/// The four vertices of a rectangle as the contents of a vertex buffer.
fn to_vec(vertices: [Vertex2D; 4]) -> (buffer: Vec<Vertex2D>)
    ensures
        buffer@ == vertices@,
{
    let mut buffer: Vec<Vertex2D> = Vec::new();
    buffer.push(vertices[0]);
    buffer.push(vertices[1]);
    buffer.push(vertices[2]);
    buffer.push(vertices[3]);
    assert(buffer@ =~= vertices@);
    buffer
}

/// In every frame the command buffers of all the lights come before
/// those of all the walls, each kind in the order of the scene, and there
/// is one command buffer for each object.
pub proof fn lights_before_walls(renderer: RendererView, frame_idx: u32)
    ensures
        renderer.frame(frame_idx).command_buffers.len() == renderer.lights.len()
            + renderer.walls.len(),
        forall|i: int|
            0 <= i < renderer.lights.len() ==> #[trigger] renderer.frame(
                frame_idx,
            ).command_buffers[i] == renderer.commands(
                frame_idx,
                spec_discrete_light(renderer.lights[i]),
            ),
        forall|j: int|
            0 <= j < renderer.walls.len() ==> #[trigger] renderer.frame(
                frame_idx,
            ).command_buffers[renderer.lights.len() + j] == renderer.commands(
                frame_idx,
                spec_discrete_wall(renderer.walls[j]),
            ),
{
}

/// Where the acquisition reports that the surface is out of date, or
/// that the image is suboptimal, no frame is made, so nothing is
/// submitted, and the outcome is the obsolete swapchain.
pub proof fn stale_surface_submits_nothing(renderer: RendererView, frame_idx: u32)
    ensures
        renderer.render(Err(VulkanError::OutOfDate)) == Err::<FrameView, DrawingError>(
            DrawingError::ObsoleteSwapchain,
        ),
        renderer.render(Ok((frame_idx, true))) == Err::<FrameView, DrawingError>(
            DrawingError::ObsoleteSwapchain,
        ),
{
}

/// Every command buffer of a frame draws once, and draws all the
/// vertices that it binds.
pub proof fn one_draw_per_object(renderer: RendererView, frame_idx: u32, i: int)
    requires
        0 <= i < renderer.frame(frame_idx).command_buffers.len(),
    ensures
        renderer.frame(frame_idx).command_buffers[i].commands.len() == 5,
        renderer.frame(frame_idx).command_buffers[i].commands[3] == (CommandView::Draw {
            vertex_count: 4,
            instance_count: 1,
            first_vertex: 0,
            first_instance: 0,
        }),
        forall|k: int|
            0 <= k < 5 && k != 3 ==> !(#[trigger] renderer.frame(
                frame_idx,
            ).command_buffers[i].commands[k] is Draw),
{
    lights_before_walls(renderer, frame_idx);
    if i >= renderer.lights.len() {
        let j = i - renderer.lights.len();
        assert(renderer.frame(frame_idx).command_buffers[renderer.lights.len() + j]
            == renderer.commands(frame_idx, spec_discrete_wall(renderer.walls[j])));
    }
}

/// An empty scene can be drawn to any image: the frame succeeds and
/// holds no command buffer, so that nothing is drawn.
pub proof fn empty_scene_draws_nothing(renderer: RendererView, frame_idx: u32)
    requires
        renderer.lights.len() == 0,
        renderer.walls.len() == 0,
    ensures
        renderer.can_draw(frame_idx),
        renderer.render(Ok((frame_idx, false))) == Ok::<FrameView, DrawingError>(
            FrameView { image_index: frame_idx, command_buffers: Seq::empty() },
        ),
{
    assert(renderer.frame(frame_idx).command_buffers =~= Seq::<CommandBufferView>::empty());
}

/// Where the drawing context fits a window of size `dimensions`, every
/// command buffer of a frame draws to a framebuffer of that size, which
/// wraps the acquired image, through a pipeline whose viewport has that
/// size.
pub proof fn frame_matches_surface(
    renderer: RendererView,
    frame_idx: u32,
    dimensions: [u32; 2],
    i: int,
)
    requires
        renderer.vk_ctx.fits(dimensions),
        frame_idx < renderer.vk_ctx.framebuffers.len(),
        0 <= i < renderer.frame(frame_idx).command_buffers.len(),
    ensures
        renderer.frame(frame_idx).command_buffers[i].commands[0] == (CommandView::BeginRenderPass {
            framebuffer: Framebuffer { image: frame_idx as usize, extent: dimensions },
            clear_value: [CLEAR, CLEAR, CLEAR, CLEAR],
        }),
        renderer.frame(frame_idx).command_buffers[i].commands[1]
            == (CommandView::BindPipelineGraphics {
            pipeline: GraphicsPipeline { viewport: spec_viewport(dimensions) },
        }),
{
    lights_before_walls(renderer, frame_idx);
    if i >= renderer.lights.len() {
        let j = i - renderer.lights.len();
        assert(renderer.frame(frame_idx).command_buffers[renderer.lights.len() + j]
            == renderer.commands(frame_idx, spec_discrete_wall(renderer.walls[j])));
    }
}

} // verus!
