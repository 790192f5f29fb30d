use radiance_cascades::drawing::context::{
    get_swapchain, CompositeAlpha, DrawingContext, Format, Framebuffer, PresentMode,
    SurfaceCapabilities,
};
use radiance_cascades::drawing::error::{DrawingError, VulkanError};
use radiance_cascades::drawing::objects::discretable::{discrete_light, discrete_wall};
use radiance_cascades::drawing::objects::{Light, Wall};
use radiance_cascades::drawing::renderer::{
    get_command_buffer, Command, CommandBuffer, Frame, Renderer, CLEAR,
};
use radiance_cascades::drawing::vulkan_helper::{
    PhysicalDevice, PhysicalDeviceType, QueueFamily, VulkanCore,
};
use radiance_cascades::geometry::Vertex2DBuilder;
use radiance_cascades::math::{Rect, Vec2};

fn vec2(x: f32, y: f32) -> Vec2 {
    Vec2::new(x.to_bits(), y.to_bits())
}

fn chosen() -> VulkanCore {
    let devices = vec![PhysicalDevice {
        device_type: PhysicalDeviceType::DiscreteGpu,
        khr_swapchain: true,
        queue_families: vec![
            QueueFamily { graphics: false, surface_support: Some(true) },
            QueueFamily { graphics: true, surface_support: Some(true) },
        ],
    }];
    VulkanCore::new(&devices).unwrap()
}

fn surface() -> SurfaceCapabilities {
    SurfaceCapabilities {
        min_image_count: 2,
        max_image_count: Some(3),
        supported_composite_alpha: vec![CompositeAlpha::Opaque],
        compatible_present_modes: vec![PresentMode::Fifo],
    }
}

fn renderer() -> Renderer {
    let info = get_swapchain(&surface(), &vec![Format(50)], [1280, 720]).unwrap();
    let context = DrawingContext::new(info, info.min_image_count as usize);
    Renderer::new(vec2(1280.0, 720.0), chosen(), context)
}

fn light(w: f32, h: f32) -> Light {
    Light { pos: vec2(10.0, 20.0), rect: Rect { pos: vec2(1.0, 2.0), size: vec2(w, h) } }
}

fn wall(w: f32, h: f32) -> Wall {
    Wall { rect: Rect { pos: vec2(5.0, 6.0), size: vec2(w, h) } }
}

fn draws(frame: &Frame) -> usize {
    let mut count = 0;
    for buffer in frame.command_buffers.iter() {
        for command in buffer.commands.iter() {
            if matches!(command, Command::Draw { .. }) {
                count += 1;
            }
        }
    }
    count
}

#[test]
fn clear_value_is_the_bits_of_a_tenth() {
    assert_eq!(CLEAR, 0.1f32.to_bits());
}

#[test]
fn new_renderer_has_an_empty_scene() {
    let r = renderer();
    assert!(r.lights().is_empty());
    assert!(r.walls().is_empty());
    assert_eq!(r.viewport(), vec2(1280.0, 720.0));
    assert_eq!(r.vk_core(), chosen());
    assert!(r.vk_ctx().fits([1280, 720]));
}

#[test]
fn objects_are_kept_in_the_order_added() {
    let mut r = renderer();
    r.add_light(light(1.0, 1.0));
    r.add_walls(wall(2.0, 2.0));
    r.add_light(light(3.0, 3.0));
    r.add_walls(wall(4.0, 4.0));
    assert_eq!(r.lights(), &vec![light(1.0, 1.0), light(3.0, 3.0)]);
    assert_eq!(r.walls(), &vec![wall(2.0, 2.0), wall(4.0, 4.0)]);
}

#[test]
fn command_buffer_draws_its_vertices_once() {
    let r = renderer();
    let vertices = vec![
        Vertex2DBuilder::new([0, 0]).build(),
        Vertex2DBuilder::new([1.0f32.to_bits(), 0]).build(),
        Vertex2DBuilder::new([0, 1.0f32.to_bits()]).build(),
    ];
    let buffer = get_command_buffer(&r.vk_core(), r.vk_ctx(), 1, vertices.clone());
    assert_eq!(
        buffer,
        CommandBuffer {
            queue_family_index: 1,
            commands: vec![
                Command::BeginRenderPass {
                    framebuffer: Framebuffer { image: 1, extent: [1280, 720] },
                    clear_value: [CLEAR; 4],
                },
                Command::BindPipelineGraphics { pipeline: r.vk_ctx().pipeline() },
                Command::BindVertexBuffers { first_binding: 0, vertices },
                Command::Draw {
                    vertex_count: 3,
                    instance_count: 1,
                    first_vertex: 0,
                    first_instance: 0
                },
                Command::EndRenderPass,
            ],
        }
    );
}

#[test]
fn out_of_date_surface_submits_nothing() {
    let mut r = renderer();
    r.add_light(light(1.0, 1.0));
    r.add_walls(wall(2.0, 2.0));
    assert_eq!(r.render(Err(VulkanError::OutOfDate)), Err(DrawingError::ObsoleteSwapchain));
}

#[test]
fn suboptimal_image_drops_the_frame() {
    let mut r = renderer();
    r.add_light(light(1.0, 1.0));
    assert_eq!(r.render(Ok((0, true))), Err(DrawingError::ObsoleteSwapchain));
    assert_eq!(r.render(Ok((2, true))), Err(DrawingError::ObsoleteSwapchain));
}

#[test]
fn other_device_errors_are_handed_on() {
    let r = renderer();
    for error in [
        VulkanError::NotReady,
        VulkanError::Timeout,
        VulkanError::OutOfHostMemory,
        VulkanError::OutOfDeviceMemory,
        VulkanError::DeviceLost,
        VulkanError::SurfaceLost,
        VulkanError::FullScreenExclusiveModeLost,
        VulkanError::Other,
    ] {
        assert_eq!(r.render(Err(error)), Err(DrawingError::VulkanError(error)));
    }
}

#[test]
fn lights_are_submitted_before_walls() {
    let mut r = renderer();
    r.add_walls(wall(30.0, 1.0));
    r.add_light(light(1.0, 10.0));
    r.add_walls(wall(40.0, 1.0));
    r.add_light(light(2.0, 20.0));
    r.add_walls(wall(50.0, 1.0));
    assert!(r.can_draw(1));
    let frame = r.render(Ok((1, false))).unwrap();
    assert_eq!(frame.image_index, 1);
    assert_eq!(frame.command_buffers.len(), 5);
    let expected: Vec<Vec<_>> = vec![
        discrete_light(&light(1.0, 10.0)).to_vec(),
        discrete_light(&light(2.0, 20.0)).to_vec(),
        discrete_wall(&wall(30.0, 1.0)).to_vec(),
        discrete_wall(&wall(40.0, 1.0)).to_vec(),
        discrete_wall(&wall(50.0, 1.0)).to_vec(),
    ];
    for (buffer, vertices) in frame.command_buffers.iter().zip(expected) {
        assert_eq!(*buffer, get_command_buffer(&r.vk_core(), r.vk_ctx(), 1, vertices));
    }
    assert_eq!(draws(&frame), 5);
    let again = r.render(Ok((1, false))).unwrap();
    assert_eq!(again, frame);
}

#[test]
fn every_object_is_drawn_to_the_acquired_image() {
    let mut r = renderer();
    r.add_light(light(1.0, 1.0));
    r.add_walls(wall(2.0, 2.0));
    let frame = r.render(Ok((2, false))).unwrap();
    for buffer in frame.command_buffers.iter() {
        assert_eq!(buffer.queue_family_index, 1);
        assert_eq!(buffer.commands.len(), 5);
        assert_eq!(
            buffer.commands[0],
            Command::BeginRenderPass {
                framebuffer: Framebuffer { image: 2, extent: [1280, 720] },
                clear_value: [CLEAR; 4],
            }
        );
        assert_eq!(
            buffer.commands[3],
            Command::Draw { vertex_count: 4, instance_count: 1, first_vertex: 0, first_instance: 0 }
        );
        assert_eq!(buffer.commands[4], Command::EndRenderPass);
    }
}

#[test]
fn window_of_1280_by_720_end_to_end() {
    let caps = surface();
    let info = get_swapchain(&caps, &vec![Format(50)], [1280, 720]).unwrap();
    assert!(caps.min_image_count <= info.min_image_count);
    assert!(
        info.min_image_count
            <= std::cmp::min(caps.min_image_count + 1, caps.max_image_count.unwrap())
    );
    assert_eq!(info.min_image_count, 3);
    assert_eq!(info.image_extent, [1280, 720]);
    let r = Renderer::new(vec2(1280.0, 720.0), chosen(), DrawingContext::new(info, 3));
    assert!(r.can_draw(0));
    let frame = r.render(Ok((0, false))).unwrap();
    assert_eq!(frame, Frame { image_index: 0, command_buffers: Vec::new() });
    assert_eq!(draws(&frame), 0);
}

#[test]
fn empty_scene_draws_to_any_image() {
    let r = renderer();
    assert!(r.can_draw(1000));
    let frame = r.render(Ok((1000, false))).unwrap();
    assert_eq!(frame, Frame { image_index: 1000, command_buffers: Vec::new() });
}

#[test]
fn an_image_without_framebuffer_cannot_be_drawn_to() {
    let mut r = renderer();
    r.add_walls(wall(1.0, 1.0));
    assert!(r.can_draw(2));
    assert!(!r.can_draw(3));
}

#[test]
fn rebuild_replaces_the_context_and_keeps_the_scene() {
    let mut r = renderer();
    r.add_light(light(1.0, 1.0));
    r.add_walls(wall(2.0, 2.0));
    r.revoke_swapchain([640, 480], 4);
    assert_eq!(r.vk_ctx().framebuffers().len(), 4);
    assert_eq!(r.vk_ctx().swapchain().create_info.image_extent, [640, 480]);
    assert_eq!(r.vk_ctx().pipeline().viewport.extent, [1280, 720]);
    r.resize_viewport([640, 480]);
    assert!(r.vk_ctx().fits([640, 480]));
    assert_eq!(r.vk_ctx().framebuffers().len(), 4);
    assert_eq!(r.lights(), &vec![light(1.0, 1.0)]);
    assert_eq!(r.walls(), &vec![wall(2.0, 2.0)]);
    assert_eq!(r.vk_core(), chosen());
    let frame = r.render(Ok((3, false))).unwrap();
    assert_eq!(
        frame.command_buffers[0].commands[0],
        Command::BeginRenderPass {
            framebuffer: Framebuffer { image: 3, extent: [640, 480] },
            clear_value: [CLEAR; 4],
        }
    );
    assert_eq!(
        frame.command_buffers[1].commands[1],
        Command::BindPipelineGraphics { pipeline: r.vk_ctx().pipeline() }
    );
}
