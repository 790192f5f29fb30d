//! Vertices handed to the rasterizer.

use crate::math::ONE;
use vstd::prelude::*;
use vstd::std_specs::convert::FromSpecImpl;

verus! {

/// Two coordinates.
pub type Position = [u32; 2];

/// Red, green and blue.
pub type Color = [u32; 3];

/// Opaque white, the colour of a vertex that was given none.
pub open spec fn white() -> Color {
    [ONE, ONE, ONE]
}

/// How the rasterizer reads a member of a vertex.
#[derive(Clone, Copy, Debug, PartialEq, Eq, Structural)]
pub enum VertexFormat {
    /// Two single-precision numbers.
    R32G32Sfloat,
    /// Three single-precision numbers.
    R32G32B32Sfloat,
}

/// Where a member of a vertex lies in a vertex buffer.
#[derive(Clone, Copy, Debug, PartialEq, Eq, Structural)]
pub struct VertexMemberInfo {
    /// The distance in bytes from the start of the vertex.
    pub offset: u32,
    /// How the member is read.
    pub format: VertexFormat,
}

/// How a vertex lies in a vertex buffer.
#[derive(Clone, Copy, Debug, PartialEq, Eq, Structural)]
pub struct VertexBufferDescription {
    /// Where the position lies.
    pub position: VertexMemberInfo,
    /// Where the colour lies.
    pub color: VertexMemberInfo,
    /// The distance in bytes from one vertex to the next.
    pub stride: u32,
}

/// The number of bytes that a member of the given format takes.
pub open spec fn spec_size(format: VertexFormat) -> int {
    match format {
        VertexFormat::R32G32Sfloat => 8,
        VertexFormat::R32G32B32Sfloat => 12,
    }
}

/// The layout of a vertex: the position first, the colour right behind
/// it, and the next vertex right behind that.
pub open spec fn spec_per_vertex() -> VertexBufferDescription {
    VertexBufferDescription {
        position: VertexMemberInfo { offset: 0, format: VertexFormat::R32G32Sfloat },
        color: VertexMemberInfo { offset: 8, format: VertexFormat::R32G32B32Sfloat },
        stride: 20,
    }
}

/// The number of bytes that a member of the given format takes.
pub fn size(format: VertexFormat) -> (bytes: u32)
    ensures
        bytes == spec_size(format),
{
    match format {
        VertexFormat::R32G32Sfloat => 8,
        VertexFormat::R32G32B32Sfloat => 12,
    }
}

/// A vertex is tightly packed: its position takes the first eight bytes,
/// its colour the twelve that follow, and that is all of it.
pub proof fn vertex_is_tightly_packed()
    ensures
        spec_per_vertex().position.offset == 0,
        spec_size(spec_per_vertex().position.format) == 8,
        spec_per_vertex().color.offset == spec_per_vertex().position.offset + spec_size(
            spec_per_vertex().position.format,
        ),
        spec_size(spec_per_vertex().color.format) == 12,
        spec_per_vertex().stride == spec_per_vertex().color.offset + spec_size(
            spec_per_vertex().color.format,
        ),
{
}

/// A coloured point. In a vertex buffer the position comes first and the
/// colour second, with nothing between them.
#[derive(Clone, Copy, Debug, PartialEq, Eq)]
pub struct Vertex2D {
    position: Position,
    color: Color,
}

impl Vertex2D {
    /// The vertex at `position` of colour `color`.
    pub closed spec fn spec_new(position: Position, color: Color) -> Vertex2D {
        Vertex2D { position, color }
    }

    /// Where the vertex lies.
    pub closed spec fn spec_position(&self) -> Position {
        self.position
    }

    /// The colour of the vertex.
    pub closed spec fn spec_color(&self) -> Color {
        self.color
    }

    /// The vertex as it lies in a vertex buffer, word by word: each
    /// member where `spec_per_vertex` puts it.
    pub open spec fn spec_to_words(&self) -> [u32; 5] {
        [
            self.spec_position()[0],
            self.spec_position()[1],
            self.spec_color()[0],
            self.spec_color()[1],
            self.spec_color()[2],
        ]
    }

    /// How a vertex lies in a vertex buffer that holds one vertex after
    /// the other.
    pub fn per_vertex() -> (description: VertexBufferDescription)
        ensures
            description == spec_per_vertex(),
    {
        VertexBufferDescription {
            position: VertexMemberInfo { offset: 0, format: VertexFormat::R32G32Sfloat },
            color: VertexMemberInfo { offset: 8, format: VertexFormat::R32G32B32Sfloat },
            stride: 20,
        }
    }

    /// The vertex as it lies in a vertex buffer, word by word.
    pub fn to_words(&self) -> (words: [u32; 5])
        ensures
            words == self.spec_to_words(),
            forall|i: int|
                0 <= i < 2 ==> words[spec_per_vertex().position.offset / 4 + i]
                    == self.spec_position()[i],
            forall|i: int|
                0 <= i < 3 ==> words[spec_per_vertex().color.offset / 4 + i] == self.spec_color()[i],
    {
        let words = [
            self.position[0],
            self.position[1],
            self.color[0],
            self.color[1],
            self.color[2],
        ];
        assert(words =~= self.spec_to_words());
        words
    }

    /// Where the vertex lies.
    #[verifier::when_used_as_spec(spec_position)]
    pub fn position(&self) -> (p: Position)
        ensures
            p == self.spec_position(),
    {
        self.position
    }

    /// The colour of the vertex.
    #[verifier::when_used_as_spec(spec_color)]
    pub fn color(&self) -> (c: Color)
        ensures
            c == self.spec_color(),
    {
        self.color
    }
}

impl From<Vertex2DBuilder> for Vertex2D {
    /// The vertex that `value` builds.
    fn from(value: Vertex2DBuilder) -> (v: Vertex2D) {
        value.build()
    }
}

impl FromSpecImpl<Vertex2DBuilder> for Vertex2D {
    open spec fn obeys_from_spec() -> bool {
        true
    }

    open spec fn from_spec(value: Vertex2DBuilder) -> Vertex2D {
        value.spec_build()
    }
}

/// A vertex in the making: its position is fixed, its colour may still be
/// chosen.
#[derive(Clone, Copy, Debug, PartialEq, Eq)]
pub struct Vertex2DBuilder {
    position: Position,
    color: Option<Color>,
}

impl Vertex2DBuilder {
    /// The position that the vertex will have.
    pub closed spec fn spec_position(&self) -> Position {
        self.position
    }

    /// The colour chosen so far, if any.
    pub closed spec fn spec_color(&self) -> Option<Color> {
        self.color
    }

    /// The vertex that `build` returns: the builder's position, and its
    /// colour, or white where none was chosen.
    pub open spec fn spec_build(&self) -> Vertex2D {
        Vertex2D::spec_new(
            self.spec_position(),
            match self.spec_color() {
                Some(c) => c,
                None => white(),
            },
        )
    }

    /// A builder at `position` with no colour chosen.
    pub fn new(position: Position) -> (b: Vertex2DBuilder)
        ensures
            b.spec_position() == position,
            b.spec_color() == None::<Color>,
    {
        Vertex2DBuilder { position, color: None }
    }

    /// The same builder with `color` chosen, whatever was chosen before.
    pub fn color(self, color: Color) -> (b: Vertex2DBuilder)
        ensures
            b.spec_position() == self.spec_position(),
            b.spec_color() == Some(color),
    {
        Vertex2DBuilder { position: self.position, color: Some(color) }
    }

    /// The finished vertex.
    pub fn build(self) -> (v: Vertex2D)
        ensures
            v == self.spec_build(),
            v.spec_position() == self.spec_position(),
            self.spec_color() matches Some(c) ==> v.spec_color() == c,
            self.spec_color() == None::<Color> ==> v.spec_color() == white(),
    {
        let color = match self.color {
            Some(c) => c,
            None => [ONE, ONE, ONE],
        };
        Vertex2D { position: self.position, color }
    }
}

/// A vertex has the position and the colour that it was made with.
pub proof fn vertex_members(position: Position, color: Color)
    ensures
        Vertex2D::spec_new(position, color).spec_position() == position,
        Vertex2D::spec_new(position, color).spec_color() == color,
{
}


} // verus!
