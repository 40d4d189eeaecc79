use vstd::prelude::*;
use crate::vertex_layout::{
    BufferLayout, InputStepMode, VertexAttribute, VertexBufferLayout, VertexFormat,
};

verus! {

/// An RGBA colour. Each channel is held as the bit pattern of a 32-bit
/// IEEE 754 number, the word that is uploaded.
#[derive(Clone, Copy, Debug, PartialEq, Eq, Structural)]
pub struct Color {
    pub r: u32,
    pub g: u32,
    pub b: u32,
    pub a: u32,
}

impl Color {
    /// The number of bytes of one colour in an instance buffer.
    pub const STRIDE: u64 = 16;

    /// The colour with the four channels given, each by its bit pattern.
    pub fn new(r: u32, g: u32, b: u32, a: u32) -> (color: Color)
        ensures
            color == (Color { r, g, b, a }),
    {
        Color { r, g, b, a }
    }

    /// The words of the colour in upload order: red, green, blue, alpha.
    pub open spec fn words(self) -> Seq<u32> {
        seq![self.r, self.g, self.b, self.a]
    }

    /// The four channels in upload order.
    pub fn to_array(self) -> (channels: [u32; 4])
        ensures
            channels@ == self.words(),
    {
        let channels = [self.r, self.g, self.b, self.a];
        assert(channels@ =~= self.words());
        channels
    }

    /// Appends the words of the colour, in upload order, to `words`.
    pub fn append_words(&self, words: &mut Vec<u32>)
        ensures
            final(words)@ == old(words)@ + self.words(),
    {
        words.push(self.r);
        words.push(self.g);
        words.push(self.b);
        words.push(self.a);
        assert(words@ =~= old(words)@ + self.words());
    }

    /// The layout of the colour buffer: one element per instance, a single
    /// attribute of four floats for shader input 1.
    pub open spec fn layout() -> BufferLayout {
        BufferLayout {
            array_stride: 16,
            step_mode: InputStepMode::Instance,
            attributes: seq![
                VertexAttribute { offset: 0, shader_location: 1, format: VertexFormat::Float4 },
            ],
        }
    }

    /// The layout of the colour buffer.
    pub fn desc() -> (layout: VertexBufferLayout)
        ensures
            layout@ == Color::layout(),
    {
        let mut attributes: Vec<VertexAttribute> = Vec::new();
        attributes.push(
            VertexAttribute { offset: 0, shader_location: 1, format: VertexFormat::Float4 },
        );
        assert(attributes@ =~= Color::layout().attributes);
        VertexBufferLayout {
            array_stride: Color::STRIDE,
            step_mode: InputStepMode::Instance,
            attributes,
        }
    }
}

} // verus!
