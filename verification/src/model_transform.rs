use vstd::prelude::*;
use crate::vertex_layout::{
    BufferLayout, InputStepMode, VertexAttribute, VertexBufferLayout, VertexFormat,
};

verus! {

/// The number of bytes of one 32-bit float.
pub const FLOAT_SIZE: u64 = 4;

/// The transform of one instance: a 4x4 matrix as four arrays of four
/// entries. Each entry is held as the bit pattern of a 32-bit IEEE 754
/// number, the word that is uploaded.
#[derive(Clone, Copy, Debug, PartialEq, Eq)]
pub struct ModelTransform {
    pub transform: [[u32; 4]; 4],
}

impl ModelTransform {
    /// The number of bytes of one transform in an instance buffer.
    pub const STRIDE: u64 = 64;

    /// The transform with the sixteen entries given.
    pub fn new(transform_matrix: [[u32; 4]; 4]) -> (model: ModelTransform)
        ensures
            model.transform == transform_matrix,
    {
        ModelTransform { transform: transform_matrix }
    }

    /// The words of the transform in upload order: the four arrays one after
    /// the other.
    pub open spec fn words(self) -> Seq<u32> {
        Seq::new(16, |k: int| self.transform@[k / 4]@[k % 4])
    }

    /// Appends the words of the transform, in upload order, to `words`.
    pub fn append_words(&self, words: &mut Vec<u32>)
        ensures
            final(words)@ == old(words)@ + self.words(),
    {
        let ghost before = words@;
        let mut row: usize = 0;
        while row < 4
            invariant
                row <= 4,
                words@ == before + self.words().take(4 * row),
            decreases 4 - row,
        {
            let mut column: usize = 0;
            while column < 4
                invariant
                    row < 4,
                    column <= 4,
                    words@ == before + self.words().take(4 * row + column),
                decreases 4 - column,
            {
                proof {
                    let k = 4 * row + column;
                    assert(self.words()[k as int] == self.transform@[row as int]@[column as int]);
                    assert(self.words().take(k + 1) =~= self.words().take(k as int).push(
                        self.words()[k as int],
                    ));
                    assert((before + self.words().take(k as int)).push(self.words()[k as int])
                        =~= before + self.words().take(k + 1));
                }
                words.push(self.transform[row][column]);
                column += 1;
            }
            row += 1;
        }
        assert(self.words().take(16) =~= self.words());
    }

    /// The layout of the transform buffer: one element per instance, four
    /// attributes of four floats each, one after the other, for shader inputs
    /// 2 to 5.
    pub open spec fn layout() -> BufferLayout {
        BufferLayout {
            array_stride: 64,
            step_mode: InputStepMode::Instance,
            attributes: Seq::new(
                4,
                |k: int|
                    VertexAttribute {
                        offset: (16 * k) as u64,
                        shader_location: (2 + k) as u32,
                        format: VertexFormat::Float4,
                    },
            ),
        }
    }

    /// The layout of the transform buffer.
    pub fn desc() -> (layout: VertexBufferLayout)
        ensures
            layout@ == ModelTransform::layout(),
    {
        let mut attributes: Vec<VertexAttribute> = Vec::new();
        attributes.push(
            VertexAttribute { offset: 0, shader_location: 2, format: VertexFormat::Float4 },
        );
        attributes.push(
            VertexAttribute {
                offset: FLOAT_SIZE * 4,
                shader_location: 3,
                format: VertexFormat::Float4,
            },
        );
        attributes.push(
            VertexAttribute {
                offset: FLOAT_SIZE * 4 * 2,
                shader_location: 4,
                format: VertexFormat::Float4,
            },
        );
        attributes.push(
            VertexAttribute {
                offset: FLOAT_SIZE * 4 * 3,
                shader_location: 5,
                format: VertexFormat::Float4,
            },
        );
        assert(attributes@ =~= ModelTransform::layout().attributes);
        VertexBufferLayout {
            array_stride: ModelTransform::STRIDE,
            step_mode: InputStepMode::Instance,
            attributes,
        }
    }
}

} // verus!
