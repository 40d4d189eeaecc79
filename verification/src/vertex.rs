use vstd::prelude::*;
use crate::bytes::{joined, lemma_joined_len, lemma_joined_push};
use crate::vertex_layout::{
    BufferLayout, InputStepMode, VertexAttribute, VertexBufferLayout, VertexFormat,
};

verus! {

/// A vertex of a shape: its position in the plane. Each coordinate is held
/// as the bit pattern of a 32-bit IEEE 754 number, the word that is uploaded.
#[derive(Clone, Copy, Debug, PartialEq, Eq)]
pub struct Vertex {
    pub position: [u32; 2],
}

impl Vertex {
    /// The number of bytes of one vertex in a vertex buffer.
    pub const STRIDE: u64 = 8;

    /// The vertex at (`x`, `y`), each given by its bit pattern.
    pub open spec fn at(x: u32, y: u32) -> Vertex {
        Vertex { position: [x, y] }
    }

    /// The vertex at the origin: the bit pattern of zero is 0.
    pub open spec fn origin() -> Vertex {
        Vertex::at(0, 0)
    }

    /// The vertex at (`x`, `y`), each given by its bit pattern.
    pub fn new(x: u32, y: u32) -> (vertex: Vertex)
        ensures
            vertex == Vertex::at(x, y),
    {
        Vertex { position: [x, y] }
    }

    /// The words of the vertex in upload order.
    pub open spec fn words(self) -> Seq<u32> {
        self.position@
    }

    /// The layout of the vertex buffer: one element per vertex, a single
    /// attribute of two floats for shader input 0.
    pub open spec fn layout() -> BufferLayout {
        BufferLayout {
            array_stride: 8,
            step_mode: InputStepMode::Vertex,
            attributes: seq![
                VertexAttribute { offset: 0, shader_location: 0, format: VertexFormat::Float2 },
            ],
        }
    }

    /// The layout of the vertex buffer.
    pub fn desc() -> (layout: VertexBufferLayout)
        ensures
            layout@ == Vertex::layout(),
    {
        let mut attributes: Vec<VertexAttribute> = Vec::new();
        attributes.push(
            VertexAttribute { offset: 0, shader_location: 0, format: VertexFormat::Float2 },
        );
        assert(attributes@ =~= Vertex::layout().attributes);
        VertexBufferLayout {
            array_stride: Vertex::STRIDE,
            step_mode: InputStepMode::Vertex,
            attributes,
        }
    }
}

/// The words of the vertices in upload order: vertex after vertex, two words
/// each.
pub open spec fn vertex_words(vertices: Seq<Vertex>) -> Seq<u32> {
    joined(vertices.map_values(|vertex: Vertex| vertex.words()))
}

/// The words of the vertices in upload order.
pub fn words_of_vertices(vertices: &Vec<Vertex>) -> (words: Vec<u32>)
    ensures
        words@ == vertex_words(vertices@),
        words@.len() == 2 * vertices@.len(),
{
    let mut words: Vec<u32> = Vec::new();
    let mut i: usize = 0;
    while i < vertices.len()
        invariant
            i <= vertices@.len(),
            words@ == vertex_words(vertices@.take(i as int)),
        decreases vertices@.len() - i,
    {
        let vertex = vertices[i];
        proof {
            let chunks = vertices@.take(i as int).map_values(|vertex: Vertex| vertex.words());
            assert(vertices@.take(i + 1).map_values(|vertex: Vertex| vertex.words())
                =~= chunks.push(vertex.words()));
            lemma_joined_push(chunks, vertex.words());
            assert(words@.push(vertex.position[0]).push(vertex.position[1]) =~= words@
                + vertex.words());
        }
        words.push(vertex.position[0]);
        words.push(vertex.position[1]);
        i += 1;
    }
    proof {
        assert(vertices@.take(vertices@.len() as int) =~= vertices@);
        lemma_joined_len(vertices@.map_values(|vertex: Vertex| vertex.words()), 2);
    }
    words
}

} // verus!
