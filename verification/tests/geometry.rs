use radiance_cascades::drawing::objects::discretable::{
    discrete_light, discrete_rect, discrete_vec2, discrete_wall,
};
use radiance_cascades::drawing::objects::{Light, Wall};
use radiance_cascades::geometry::{
    size, Vertex2D, Vertex2DBuilder, VertexBufferDescription, VertexFormat, VertexMemberInfo,
};
use radiance_cascades::math::{Rect, Vec2, ONE, ZERO};

fn vec2(x: f32, y: f32) -> Vec2 {
    Vec2::new(x.to_bits(), y.to_bits())
}

fn position(vertex: &Vertex2D) -> [f32; 2] {
    let p = vertex.position();
    [f32::from_bits(p[0]), f32::from_bits(p[1])]
}

fn color(vertex: &Vertex2D) -> [f32; 3] {
    let c = vertex.color();
    [f32::from_bits(c[0]), f32::from_bits(c[1]), f32::from_bits(c[2])]
}

#[test]
fn constants_are_the_bits_of_zero_and_one() {
    assert_eq!(f32::from_bits(ZERO), 0.0);
    assert_eq!(f32::from_bits(ONE), 1.0);
    assert_eq!(ZERO, 0.0f32.to_bits());
    assert_eq!(ONE, 1.0f32.to_bits());
}

#[test]
fn vec2_keeps_its_coordinates() {
    let v = vec2(1280.0, 720.0);
    assert_eq!(f32::from_bits(v.x()), 1280.0);
    assert_eq!(f32::from_bits(v.y()), 720.0);
    assert_eq!(v, Vec2([1280.0f32.to_bits(), 720.0f32.to_bits()]));
}

#[test]
fn vec2_from_array() {
    let v = Vec2::from([3.5f32.to_bits(), (-2.0f32).to_bits()]);
    assert_eq!(f32::from_bits(v.x()), 3.5);
    assert_eq!(f32::from_bits(v.y()), -2.0);
    assert_eq!(v, vec2(3.5, -2.0));
}

#[test]
fn vertex_without_color_is_white() {
    let v = Vertex2DBuilder::new([2.0f32.to_bits(), 3.0f32.to_bits()]).build();
    assert_eq!(color(&v), [1.0, 1.0, 1.0]);
    assert_eq!(position(&v), [2.0, 3.0]);
}

#[test]
fn vertex_with_color_keeps_it() {
    let red = [1.0f32.to_bits(), 0.0f32.to_bits(), 0.25f32.to_bits()];
    let v = Vertex2DBuilder::new([0.5f32.to_bits(), 4.0f32.to_bits()]).color(red).build();
    assert_eq!(color(&v), [1.0, 0.0, 0.25]);
    assert_eq!(position(&v), [0.5, 4.0]);
}

#[test]
fn last_color_wins() {
    let first = [0.5f32.to_bits(); 3];
    let second = [0.75f32.to_bits(); 3];
    let v = Vertex2DBuilder::new([0, 0]).color(first).color(second).build();
    assert_eq!(color(&v), [0.75, 0.75, 0.75]);
}

#[test]
fn vertex_from_builder_is_what_it_builds() {
    let builder = Vertex2DBuilder::new([9.0f32.to_bits(), 8.0f32.to_bits()]);
    assert_eq!(Vertex2D::from(builder), builder.build());
    let tinted = builder.color([0.5f32.to_bits(); 3]);
    assert_eq!(Vertex2D::from(tinted), tinted.build());
    assert_ne!(Vertex2D::from(tinted), builder.build());
}

#[test]
fn point_discretizes_to_itself() {
    let vertices = discrete_vec2(&vec2(12.5, -7.0));
    assert_eq!(vertices.len(), 1);
    assert_eq!(position(&vertices[0]), [12.5, -7.0]);
    assert_eq!(color(&vertices[0]), [1.0, 1.0, 1.0]);
}

#[test]
fn rectangle_discretizes_to_its_corners_in_strip_order() {
    let rect = Rect { pos: vec2(100.0, 200.0), size: vec2(30.0, 40.0) };
    let vertices = discrete_rect(&rect);
    assert_eq!(vertices.len(), 4);
    assert_eq!(position(&vertices[0]), [0.0, 0.0]);
    assert_eq!(position(&vertices[1]), [30.0, 0.0]);
    assert_eq!(position(&vertices[2]), [0.0, 40.0]);
    assert_eq!(position(&vertices[3]), [30.0, 40.0]);
    for vertex in vertices.iter() {
        assert_eq!(color(vertex), [1.0, 1.0, 1.0]);
    }
}

#[test]
fn rectangle_vertices_ignore_its_position() {
    let here = Rect { pos: vec2(0.0, 0.0), size: vec2(5.0, 6.0) };
    let there = Rect { pos: vec2(-300.0, 9000.0), size: vec2(5.0, 6.0) };
    assert_eq!(discrete_rect(&here), discrete_rect(&there));
}

#[test]
fn empty_rectangle_still_has_four_vertices() {
    let rect = Rect { pos: vec2(1.0, 1.0), size: vec2(0.0, 0.0) };
    let vertices = discrete_rect(&rect);
    assert_eq!(vertices.len(), 4);
    for vertex in vertices.iter() {
        assert_eq!(position(vertex), [0.0, 0.0]);
    }
}

#[test]
fn light_discretizes_by_its_rectangle_alone() {
    let rect = Rect { pos: vec2(4.0, 4.0), size: vec2(10.0, 20.0) };
    let light = Light { pos: vec2(50.0, 60.0), rect };
    let moved = Light { pos: vec2(-1.0, -2.0), rect };
    assert_eq!(discrete_light(&light), discrete_rect(&rect));
    assert_eq!(discrete_light(&light), discrete_light(&moved));
    assert_eq!(position(&discrete_light(&light)[3]), [10.0, 20.0]);
}

#[test]
fn wall_discretizes_by_its_rectangle() {
    let rect = Rect { pos: vec2(4.0, 4.0), size: vec2(2.0, 8.0) };
    let wall = Wall { rect };
    assert_eq!(discrete_wall(&wall), discrete_rect(&rect));
    assert_eq!(position(&discrete_wall(&wall)[1]), [2.0, 0.0]);
    assert_eq!(position(&discrete_wall(&wall)[2]), [0.0, 8.0]);
}

#[test]
fn vertex_is_laid_out_position_first() {
    let layout = Vertex2D::per_vertex();
    assert_eq!(
        layout,
        VertexBufferDescription {
            position: VertexMemberInfo { offset: 0, format: VertexFormat::R32G32Sfloat },
            color: VertexMemberInfo { offset: 8, format: VertexFormat::R32G32B32Sfloat },
            stride: 20,
        }
    );
    assert_eq!(size(layout.position.format), 8);
    assert_eq!(size(layout.color.format), 12);
    assert_eq!(layout.color.offset, layout.position.offset + size(layout.position.format));
    assert_eq!(layout.stride, layout.color.offset + size(layout.color.format));
    assert_eq!(layout.stride as usize, std::mem::size_of::<[u32; 5]>());
}

#[test]
fn vertex_words_are_position_then_color() {
    let tint = [0.25f32.to_bits(), 0.5f32.to_bits(), 0.75f32.to_bits()];
    let v = Vertex2DBuilder::new([3.0f32.to_bits(), 4.0f32.to_bits()]).color(tint).build();
    assert_eq!(v.to_words().map(f32::from_bits), [3.0, 4.0, 0.25, 0.5, 0.75]);
    let w = Vertex2DBuilder::new([3.0f32.to_bits(), 4.0f32.to_bits()]).build();
    assert_eq!(w.to_words().map(f32::from_bits), [3.0, 4.0, 1.0, 1.0, 1.0]);
}
