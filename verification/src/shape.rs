use vstd::prelude::*;
use crate::bytes::{
    halves_as_bytes, is_half_image, is_word_image, joined, lemma_joined_len, lemma_joined_push,
    words_as_bytes,
};
use crate::color::Color;
use crate::errors::ShapeError;
use crate::model_transform::ModelTransform;
use crate::registry::{valid_geometry, DrawCall, Instance, ShapeState};
use crate::vertex::{vertex_words, words_of_vertices, Vertex};

verus! {

/// A handle to a shape of a device. The shape lives as long as any handle to
/// it: handles are cloned and dropped through the device, which counts them.
#[derive(Debug)]
pub struct Shape {
    id: u64,
    pub name: &'static str,
}

impl Shape {
    /// A handle to the shape `id`.
    pub(crate) fn new(id: u64, name: &'static str) -> (shape: Shape)
        ensures
            shape.spec_id() == id,
            shape.spec_name() == name,
    {
        Shape { id, name }
    }

    /// The display name of the shape.
    pub closed spec fn spec_name(&self) -> &'static str {
        self.name
    }

    /// The display name of the shape.
    #[verifier::when_used_as_spec(spec_name)]
    pub fn name(&self) -> (name: &'static str)
        ensures
            name == self.spec_name(),
    {
        self.name
    }

    /// The identifier of the shape that the handle refers to.
    pub closed spec fn spec_id(&self) -> u64 {
        self.id
    }

    /// The identifier of the shape that the handle refers to.
    #[verifier::when_used_as_spec(spec_id)]
    pub fn id(&self) -> (id: u64)
        ensures
            id == self.spec_id(),
    {
        self.id
    }
}

/// The geometry of a shape: its vertices and the indices of its triangles.
/// It does not change once it is made, and every index names a vertex.
#[derive(Debug)]
pub struct GeometryRecord {
    vertices: Vec<Vertex>,
    indices: Vec<u16>,
}

impl GeometryRecord {
    /// The vertices, in order.
    pub closed spec fn spec_vertices(&self) -> Seq<Vertex> {
        self.vertices@
    }

    /// The indices, in order.
    pub closed spec fn spec_indices(&self) -> Seq<u16> {
        self.indices@
    }

    /// Every index names a vertex, and one draw call can count the indices.
    #[verifier::type_invariant]
    pub open spec fn wf(&self) -> bool {
        valid_geometry(self.spec_vertices(), self.spec_indices())
    }

    /// The record of the geometry given, or `InvalidGeometry` where an index
    /// names no vertex or the indices are too many.
    pub fn new(vertices: Vec<Vertex>, indices: Vec<u16>) -> (result: Result<
        GeometryRecord,
        ShapeError,
    >)
        ensures
            valid_geometry(vertices@, indices@) <==> result is Ok,
            result matches Ok(record) ==> record.wf() && record.spec_vertices() == vertices@
                && record.spec_indices() == indices@,
            result matches Err(error) ==> error == ShapeError::InvalidGeometry,
    {
        if indices.len() > u32::MAX as usize {
            return Err(ShapeError::InvalidGeometry);
        }
        let count = vertices.len();
        let mut i: usize = 0;
        while i < indices.len()
            invariant
                i <= indices@.len(),
                count == vertices@.len(),
                forall|k: int| 0 <= k < i ==> (#[trigger] indices@[k]) < count,
            decreases indices@.len() - i,
        {
            if indices[i] as usize >= count {
                return Err(ShapeError::InvalidGeometry);
            }
            i += 1;
        }
        Ok(GeometryRecord { vertices, indices })
    }

    /// The vertices, in order.
    pub fn vertices(&self) -> (vertices: &Vec<Vertex>)
        ensures
            vertices@ == self.spec_vertices(),
    {
        &self.vertices
    }

    /// The indices, in order.
    pub fn indices(&self) -> (indices: &Vec<u16>)
        ensures
            indices@ == self.spec_indices(),
    {
        &self.indices
    }

    /// The contents of the vertex buffer of the shape: the vertices one after
    /// the other as they lie in memory, `Vertex::STRIDE` bytes each.
    pub fn vertex_bytes(&self) -> (bytes: Vec<u8>)
        ensures
            is_word_image(bytes@, vertex_words(self.spec_vertices())),
            bytes@.len() == Vertex::STRIDE * self.spec_vertices().len(),
    {
        let words = words_of_vertices(&self.vertices);
        words_as_bytes(&words)
    }

    /// The contents of the index buffer of the shape: the indices one after
    /// the other as they lie in memory, two bytes each.
    pub fn index_bytes(&self) -> (bytes: Vec<u8>)
        ensures
            is_half_image(bytes@, self.spec_indices()),
    {
        halves_as_bytes(&self.indices)
    }

    /// The number of indices that a draw call of the shape covers.
    pub fn num_indices(&self) -> (count: u32)
        ensures
            count == self.spec_indices().len(),
    {
        proof {
            use_type_invariant(self);
        }
        self.indices.len() as u32
    }
}

/// One instanced draw call of a frame: the shape to draw and the instances to
/// draw it with, in the order in which they were submitted.
#[derive(Debug)]
pub struct DrawBatch {
    pub shape: u64,
    pub num_indices: u32,
    pub instances: Vec<Instance>,
}

impl View for DrawBatch {
    type V = DrawCall;

    open spec fn view(&self) -> DrawCall {
        DrawCall {
            shape: self.shape,
            num_indices: self.num_indices as nat,
            instances: self.instances@,
        }
    }
}

/// The draw calls as mathematical values.
pub open spec fn draw_calls_of(batches: Seq<DrawBatch>) -> Seq<DrawCall> {
    batches.map_values(|batch: DrawBatch| batch@)
}

/// The words of the transforms of the instances in upload order: instance
/// after instance, sixteen words each.
pub open spec fn transform_words(instances: Seq<Instance>) -> Seq<u32> {
    joined(instances.map_values(|instance: Instance| instance.transform.words()))
}

/// The words of the colours of the instances in upload order: instance after
/// instance, four words each.
pub open spec fn color_words(instances: Seq<Instance>) -> Seq<u32> {
    joined(instances.map_values(|instance: Instance| instance.color.words()))
}

impl DrawBatch {
    /// The contents of the transform buffer of the draw call: the transforms
    /// of the instances one after the other as they lie in memory,
    /// `ModelTransform::STRIDE` bytes each.
    pub fn transform_bytes(&self) -> (bytes: Vec<u8>)
        ensures
            is_word_image(bytes@, transform_words(self@.instances)),
            bytes@.len() == ModelTransform::STRIDE * self@.instances.len(),
    {
        let mut words: Vec<u32> = Vec::new();
        let mut i: usize = 0;
        while i < self.instances.len()
            invariant
                i <= self.instances@.len(),
                words@ == transform_words(self.instances@.take(i as int)),
            decreases self.instances@.len() - i,
        {
            let instance = self.instances[i];
            proof {
                let chunks = self.instances@.take(i as int).map_values(
                    |instance: Instance| instance.transform.words(),
                );
                assert(self.instances@.take(i + 1).map_values(
                    |instance: Instance| instance.transform.words(),
                ) =~= chunks.push(instance.transform.words()));
                lemma_joined_push(chunks, instance.transform.words());
            }
            instance.transform.append_words(&mut words);
            i += 1;
        }
        proof {
            assert(self.instances@.take(self.instances@.len() as int) =~= self.instances@);
            lemma_joined_len(
                self.instances@.map_values(|instance: Instance| instance.transform.words()),
                16,
            );
        }
        words_as_bytes(&words)
    }

    /// The contents of the colour buffer of the draw call: the colours of the
    /// instances one after the other as they lie in memory, `Color::STRIDE`
    /// bytes each.
    pub fn color_bytes(&self) -> (bytes: Vec<u8>)
        ensures
            is_word_image(bytes@, color_words(self@.instances)),
            bytes@.len() == Color::STRIDE * self@.instances.len(),
    {
        let mut words: Vec<u32> = Vec::new();
        let mut i: usize = 0;
        while i < self.instances.len()
            invariant
                i <= self.instances@.len(),
                words@ == color_words(self.instances@.take(i as int)),
            decreases self.instances@.len() - i,
        {
            let instance = self.instances[i];
            proof {
                let chunks = self.instances@.take(i as int).map_values(
                    |instance: Instance| instance.color.words(),
                );
                assert(self.instances@.take(i + 1).map_values(
                    |instance: Instance| instance.color.words(),
                ) =~= chunks.push(instance.color.words()));
                lemma_joined_push(chunks, instance.color.words());
            }
            instance.color.append_words(&mut words);
            i += 1;
        }
        proof {
            assert(self.instances@.take(self.instances@.len() as int) =~= self.instances@);
            lemma_joined_len(
                self.instances@.map_values(|instance: Instance| instance.color.words()),
                4,
            );
        }
        words_as_bytes(&words)
    }

    /// The number of instances that the draw call covers.
    pub fn num_instances(&self) -> (count: usize)
        ensures
            count == self@.instances.len(),
    {
        self.instances.len()
    }
}

/// A registry entry: the geometry of one shape, the number of handles that
/// share it, and the instances submitted against it since the last frame.
pub(crate) struct ShapeData {
    id: u64,
    handles: u64,
    geometry: GeometryRecord,
    instances: Vec<Instance>,
}

impl View for ShapeData {
    type V = ShapeState;

    closed spec fn view(&self) -> ShapeState {
        ShapeState {
            id: self.id,
            handles: self.handles as nat,
            vertices: self.geometry.spec_vertices(),
            indices: self.geometry.spec_indices(),
            pending: self.instances@,
        }
    }
}

impl ShapeData {
    /// A fresh entry for `geometry` under `id`: one handle, nothing pending.
    pub(crate) fn new(id: u64, geometry: GeometryRecord) -> (entry: ShapeData)
        ensures
            entry@ == ShapeState::fresh(id, geometry.spec_vertices(), geometry.spec_indices()),
            entry@.wf(),
    {
        proof {
            use_type_invariant(&geometry);
        }
        ShapeData { id, handles: 1, geometry, instances: Vec::new() }
    }

    pub(crate) fn id(&self) -> (id: u64)
        ensures
            id == self@.id,
    {
        self.id
    }

    pub(crate) fn handles(&self) -> (handles: u64)
        ensures
            handles == self@.handles,
    {
        self.handles
    }

    pub(crate) fn geometry(&self) -> (geometry: &GeometryRecord)
        ensures
            geometry.wf(),
            geometry.spec_vertices() == self@.vertices,
            geometry.spec_indices() == self@.indices,
    {
        proof {
            use_type_invariant(&self.geometry);
        }
        &self.geometry
    }

    pub(crate) fn pending(&self) -> (pending: &Vec<Instance>)
        ensures
            pending@ == self@.pending,
    {
        &self.instances
    }

    /// Counts one handle more.
    pub(crate) fn retain(&mut self)
        requires
            old(self)@.handles < u64::MAX,
        ensures
            final(self)@ == old(self)@.retained(),
            final(self)@.wf(),
    {
        proof {
            use_type_invariant(&self.geometry);
        }
        self.handles = self.handles + 1;
    }

    /// Counts one handle less.
    pub(crate) fn release(&mut self)
        ensures
            final(self)@ == old(self)@.released(),
            final(self)@.wf(),
    {
        proof {
            use_type_invariant(&self.geometry);
        }
        if self.handles > 0 {
            self.handles = self.handles - 1;
        }
    }

    /// Appends `instance` to the pending list.
    pub(crate) fn push_instance(&mut self, instance: Instance)
        ensures
            final(self)@ == old(self)@.drawn(instance),
            final(self)@.wf(),
    {
        proof {
            use_type_invariant(&self.geometry);
        }
        self.instances.push(instance);
    }

    /// Takes everything pending as one draw call and leaves the pending list
    /// empty. An entry with nothing pending yields no draw call.
    pub(crate) fn take_batch(&mut self) -> (batch: Option<DrawBatch>)
        ensures
            final(self)@ == old(self)@.drained(),
            final(self)@.wf(),
            old(self)@.has_pending() <==> batch is Some,
            batch matches Some(b) ==> b@ == old(self)@.draw_call(),
    {
        proof {
            use_type_invariant(&self.geometry);
        }
        if !self.instances.is_empty() {
            let mut instances: Vec<Instance> = Vec::new();
            core::mem::swap(&mut instances, &mut self.instances);
            Some(DrawBatch { shape: self.id, num_indices: self.geometry.num_indices(), instances })
        } else {
            assert(self.instances@ =~= Seq::empty());
            None
        }
    }
}

} // verus!
