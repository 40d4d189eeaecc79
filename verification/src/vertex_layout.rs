use vstd::prelude::*;

verus! {

/// Whether a vertex buffer advances once per vertex or once per instance.
#[derive(Clone, Copy, Debug, PartialEq, Eq, Structural)]
pub enum InputStepMode {
    Vertex,
    Instance,
}

/// The format of one vertex attribute: two or four 32-bit floats.
#[derive(Clone, Copy, Debug, PartialEq, Eq, Structural)]
pub enum VertexFormat {
    Float2,
    Float4,
}

impl VertexFormat {
    /// The number of bytes that an attribute of this format occupies.
    pub open spec fn spec_size(self) -> nat {
        match self {
            VertexFormat::Float2 => 8,
            VertexFormat::Float4 => 16,
        }
    }

    /// The number of bytes that an attribute of this format occupies.
    pub fn size(&self) -> (bytes: u64)
        ensures
            bytes == self.spec_size(),
    {
        match self {
            VertexFormat::Float2 => 8,
            VertexFormat::Float4 => 16,
        }
    }
}

/// One attribute of a vertex buffer: where it starts inside an element, the
/// shader input it feeds, and its format.
#[derive(Clone, Copy, Debug, PartialEq, Eq, Structural)]
pub struct VertexAttribute {
    pub offset: u64,
    pub shader_location: u32,
    pub format: VertexFormat,
}

impl VertexAttribute {
    /// The first byte after this attribute, counted from the start of the
    /// element.
    pub open spec fn end(self) -> nat {
        self.offset as nat + self.format.spec_size()
    }
}

/// How the pipeline reads one vertex buffer.
#[derive(Debug)]
pub struct VertexBufferLayout {
    pub array_stride: u64,
    pub step_mode: InputStepMode,
    pub attributes: Vec<VertexAttribute>,
}

/// The attributes tile an element of `stride` bytes exactly: they start at
/// byte 0, each begins where the one before it ends, and the last one ends at
/// `stride`.
pub open spec fn attributes_tile(stride: nat, attributes: Seq<VertexAttribute>) -> bool {
    &&& attributes.len() > 0
    &&& attributes[0].offset == 0
    &&& forall|i: int|
        0 <= i < attributes.len() - 1 ==> (#[trigger] attributes[i]).end() == attributes[i
            + 1].offset
    &&& attributes.last().end() == stride
}

/// A vertex buffer layout as a mathematical value.
pub struct BufferLayout {
    pub array_stride: nat,
    pub step_mode: InputStepMode,
    pub attributes: Seq<VertexAttribute>,
}

impl BufferLayout {
    /// The attributes tile the element exactly.
    pub open spec fn wf(self) -> bool {
        attributes_tile(self.array_stride, self.attributes)
    }

    /// The layout feeds the shader input `location`.
    pub open spec fn feeds(self, location: u32) -> bool {
        exists|i: int|
            0 <= i < self.attributes.len() && (#[trigger] self.attributes[i]).shader_location
                == location
    }
}

impl View for VertexBufferLayout {
    type V = BufferLayout;

    open spec fn view(&self) -> BufferLayout {
        BufferLayout {
            array_stride: self.array_stride as nat,
            step_mode: self.step_mode,
            attributes: self.attributes@,
        }
    }
}

/// The layouts as mathematical values.
pub open spec fn layouts_of(buffers: Seq<VertexBufferLayout>) -> Seq<BufferLayout> {
    buffers.map_values(|buffer: VertexBufferLayout| buffer@)
}

} // verus!
