use vstd::prelude::*;
use crate::color::Color;
use crate::errors::{FrameError, ShapeError};
use crate::frame::{
    FrameAction, FrameEvent, FrameRenderer, FrameReport, RenderPass, SkipPolicy,
};
use crate::model_transform::ModelTransform;
use crate::registry::{valid_geometry, DeviceState, Instance, ShapeState};
use crate::shape::{draw_calls_of, DrawBatch, GeometryRecord, Shape, ShapeData};
use crate::uniforms::ViewUniforms;
use crate::utils::{
    build_circle, circle_fits, is_at_most_epsilon, spec_circle_indices, spec_circle_vertices,
    MAX_SEGMENTS,
};
use crate::vertex::Vertex;
use crate::vertex_layout::{layouts_of, BufferLayout, VertexBufferLayout};

verus! {

/// The registry and batching core of the graphics device: the shapes that
/// exist, the handles that share them, the instances submitted against each
/// since the last frame, and the size of the viewport.
pub struct GraphicDevice {
    shapes: Vec<ShapeData>,
    next_id: u64,
    width: u32,
    height: u32,
}

/// The entries as mathematical values.
spec fn views(entries: Seq<ShapeData>) -> Seq<ShapeState> {
    entries.map_values(|entry: ShapeData| entry@)
}

/// The place of the entry for `id` among `shapes`, if there is one.
fn find(shapes: &Vec<ShapeData>, id: u64) -> (place: Option<usize>)
    ensures
        place matches Some(i) ==> i < shapes@.len() && views(shapes@)[i as int].id == id,
        place is None ==> forall|k: int|
            0 <= k < shapes@.len() ==> (#[trigger] views(shapes@)[k]).id != id,
{
    let mut i: usize = 0;
    while i < shapes.len()
        invariant
            i <= shapes@.len(),
            forall|k: int| 0 <= k < i ==> (#[trigger] views(shapes@)[k]).id != id,
        decreases shapes@.len() - i,
    {
        if shapes[i].id() == id {
            return Some(i);
        }
        i += 1;
    }
    None
}

impl View for GraphicDevice {
    type V = DeviceState;

    closed spec fn view(&self) -> DeviceState {
        DeviceState {
            shapes: views(self.shapes@),
            next_id: self.next_id as nat,
            width: self.width,
            height: self.height,
        }
    }
}

impl GraphicDevice {
    /// The device is well formed when its model is.
    #[verifier::type_invariant]
    pub open spec fn wf(&self) -> bool {
        self@.wf()
    }

    /// A device without shapes for a viewport of `width` by `height` pixels.
    pub fn new(width: u32, height: u32) -> (device: GraphicDevice)
        ensures
            device.wf(),
            device@ == DeviceState::empty(width, height),
    {
        GraphicDevice::numbered_from(width, height, 0)
    }

    /// A device without shapes that hands out the identifiers from
    /// `first_id` on. A device that takes the place of an earlier one goes on
    /// where that one stopped, so that no handle of the earlier device names
    /// a shape of the new one.
    pub fn numbered_from(width: u32, height: u32, first_id: u64) -> (device: GraphicDevice)
        ensures
            device.wf(),
            device@ == DeviceState::numbered_from(width, height, first_id),
    {
        let device = GraphicDevice { shapes: Vec::new(), next_id: first_id, width, height };
        assert(device@.shapes =~= Seq::empty());
        device
    }

    /// The identifier that the next shape gets.
    pub fn next_id(&self) -> (next: u64)
        ensures
            next == self@.next_id,
    {
        self.next_id
    }

    /// The vertex buffers that the pipeline reads, by slot: the vertices of
    /// the shape, then the colours and the transforms of its instances.
    pub open spec fn spec_vertex_buffers() -> Seq<BufferLayout> {
        seq![Vertex::layout(), Color::layout(), ModelTransform::layout()]
    }

    /// One of the vertex buffers of the pipeline feeds the shader input
    /// `location`.
    pub open spec fn feeds(location: u32) -> bool {
        ||| Vertex::layout().feeds(location)
        ||| Color::layout().feeds(location)
        ||| ModelTransform::layout().feeds(location)
    }

    /// The vertex buffers that the pipeline reads, by slot.
    pub fn vertex_buffers() -> (buffers: Vec<VertexBufferLayout>)
        ensures
            layouts_of(buffers@) == GraphicDevice::spec_vertex_buffers(),
    {
        let mut buffers: Vec<VertexBufferLayout> = Vec::new();
        buffers.push(Vertex::desc());
        buffers.push(Color::desc());
        buffers.push(ModelTransform::desc());
        assert(layouts_of(buffers@) =~= GraphicDevice::spec_vertex_buffers());
        buffers
    }

    /// The number of entries in the registry.
    pub fn shape_count(&self) -> (count: usize)
        ensures
            count == self@.shapes.len(),
    {
        self.shapes.len()
    }

    /// Says whether the registry holds an entry for the shape of `shape`.
    pub fn is_registered(&self, shape: &Shape) -> (registered: bool)
        ensures
            registered == self@.contains(shape.id()),
    {
        let place = find(&self.shapes, shape.id());
        proof {
            if place is Some {
                assert(self@.shapes[place->0 as int].id == shape.id());
            }
        }
        place.is_some()
    }

    /// The number of handles to the shape of `shape`; 0 where the registry
    /// holds no entry for it.
    pub fn handle_count(&self, shape: &Shape) -> (handles: u64)
        ensures
            handles == if self@.contains(shape.id()) {
                self@.shape(shape.id()).handles
            } else {
                0
            },
    {
        proof {
            use_type_invariant(self);
        }
        match find(&self.shapes, shape.id()) {
            Some(i) => {
                proof {
                    self@.lemma_index_of(i as int);
                }
                self.shapes[i].handles()
            },
            None => 0,
        }
    }

    /// The instances submitted against the shape of `shape` since the last
    /// frame, oldest first; none where the registry holds no entry for it.
    pub fn pending(&self, shape: &Shape) -> (pending: Option<&Vec<Instance>>)
        ensures
            pending is Some <==> self@.contains(shape.id()),
            pending matches Some(instances) ==> instances@ == self@.shape(shape.id()).pending,
    {
        proof {
            use_type_invariant(self);
        }
        match find(&self.shapes, shape.id()) {
            Some(i) => {
                proof {
                    self@.lemma_index_of(i as int);
                }
                Some(self.shapes[i].pending())
            },
            None => None,
        }
    }

    /// The geometry of the shape of `shape`; none where the registry holds no
    /// entry for it.
    pub fn geometry(&self, shape: &Shape) -> (geometry: Option<&GeometryRecord>)
        ensures
            geometry is Some <==> self@.contains(shape.id()),
            geometry matches Some(record) ==> record.wf() && record.spec_vertices() == self@.shape(
                shape.id(),
            ).vertices && record.spec_indices() == self@.shape(shape.id()).indices,
    {
        proof {
            use_type_invariant(self);
        }
        match find(&self.shapes, shape.id()) {
            Some(i) => {
                proof {
                    self@.lemma_index_of(i as int);
                }
                Some(self.shapes[i].geometry())
            },
            None => None,
        }
    }

    /// The size of the viewport: its width and its height.
    pub fn size(&self) -> (size: (u32, u32))
        ensures
            size == (self@.width, self@.height),
    {
        (self.width, self.height)
    }

    /// The projection of the current viewport.
    pub fn view_uniforms(&self) -> (view: ViewUniforms)
        ensures
            view == self@.view_uniforms(),
    {
        ViewUniforms::for_size(self.width, self.height)
    }

    /// Records a new size of the viewport and returns the projection that
    /// goes with it.
    pub fn set_window_size(&mut self, width: u32, height: u32) -> (view: ViewUniforms)
        ensures
            final(self).wf(),
            final(self)@ == old(self)@.resized(width, height),
            view == final(self)@.view_uniforms(),
    {
        proof {
            use_type_invariant(&*self);
        }
        self.width = width;
        self.height = height;
        ViewUniforms::for_size(width, height)
    }

    /// Creates a shape from its geometry and returns the first handle to it.
    /// Geometry with an index that names no vertex, or with more indices
    /// than a draw call can count, is refused, and so is a shape for which no
    /// identifier is left; the device then stays as it was.
    pub fn create_shape(
        &mut self,
        vertex_data: Vec<Vertex>,
        indices: Vec<u16>,
        name: &'static str,
    ) -> (result: Result<Shape, ShapeError>)
        ensures
            final(self).wf(),
            match result {
                Ok(shape) => {
                    &&& valid_geometry(vertex_data@, indices@)
                    &&& old(self)@.next_id < u64::MAX
                    &&& shape.id() == old(self)@.next_id
                    &&& shape.name() == name
                    &&& final(self)@ == old(self)@.created(vertex_data@, indices@)
                },
                Err(ShapeError::InvalidGeometry) => {
                    &&& !valid_geometry(vertex_data@, indices@)
                    &&& final(self)@ == old(self)@
                },
                Err(ShapeError::RegistryFull) => {
                    &&& valid_geometry(vertex_data@, indices@)
                    &&& old(self)@.next_id == u64::MAX
                    &&& final(self)@ == old(self)@
                },
            },
    {
        proof {
            use_type_invariant(&*self);
        }
        let geometry = match GeometryRecord::new(vertex_data, indices) {
            Ok(geometry) => geometry,
            Err(error) => {
                return Err(error);
            },
        };
        if self.next_id == u64::MAX {
            return Err(ShapeError::RegistryFull);
        }
        let id = self.next_id;
        let entry = ShapeData::new(id, geometry);
        let mut shapes: Vec<ShapeData> = Vec::new();
        core::mem::swap(&mut shapes, &mut self.shapes);
        shapes.push(entry);
        proof {
            assert(views(shapes@) =~= old(self)@.shapes.push(entry@));
            old(self)@.lemma_created(vertex_data@, indices@);
        }
        self.next_id = id + 1;
        self.shapes = shapes;
        Ok(Shape::new(id, name))
    }

    /// Creates a circle of radius `radius`, given by its bit pattern, with
    /// `num_vertices` segments and the vertices `rim` on its rim, under the
    /// name "circle". A circle that is no single point and has more segments
    /// than 16-bit indices can tell apart, or fewer vertices on its rim than
    /// it has segments, is refused as invalid geometry.
    pub fn create_circle(&mut self, radius: u32, num_vertices: usize, rim: Vec<Vertex>) -> (result:
        Result<Shape, ShapeError>)
        ensures
            final(self).wf(),
            ({
                let vertices = spec_circle_vertices(radius, num_vertices as nat, rim@);
                let indices = spec_circle_indices(radius, num_vertices as nat);
                let valid = circle_fits(radius, num_vertices as nat) && valid_geometry(
                    vertices,
                    indices,
                );
                match result {
                    Ok(shape) => {
                        &&& valid
                        &&& old(self)@.next_id < u64::MAX
                        &&& shape.id() == old(self)@.next_id
                        &&& shape.name()@ == "circle"@
                        &&& final(self)@ == old(self)@.created(vertices, indices)
                    },
                    Err(ShapeError::InvalidGeometry) => {
                        &&& !valid
                        &&& final(self)@ == old(self)@
                    },
                    Err(ShapeError::RegistryFull) => {
                        &&& valid
                        &&& old(self)@.next_id == u64::MAX
                        &&& final(self)@ == old(self)@
                    },
                }
            }),
    {
        proof {
            use_type_invariant(&*self);
        }
        if num_vertices > MAX_SEGMENTS && !is_at_most_epsilon(radius) {
            return Err(ShapeError::InvalidGeometry);
        }
        let (vertex_data, indices) = build_circle(radius, num_vertices, rim);
        self.create_shape(vertex_data, indices, "circle")
    }

    /// Makes one more handle to the shape of `shape`. There is none where the
    /// shape is not live on this device, or where its handles cannot be
    /// counted any further; the device then stays as it was.
    pub fn clone_shape(&mut self, shape: &Shape) -> (result: Option<Shape>)
        ensures
            final(self).wf(),
            result is Some <==> old(self)@.contains(shape.id()) && 0 < old(self)@.shape(
                shape.id(),
            ).handles < u64::MAX,
            result matches Some(clone) ==> clone.id() == shape.id() && clone.name() == shape.name()
                && final(self)@ == old(self)@.retained(shape.id()),
            result is None ==> final(self)@ == old(self)@,
    {
        proof {
            use_type_invariant(&*self);
        }
        let id = shape.id();
        let ghost before = self@;
        let mut shapes: Vec<ShapeData> = Vec::new();
        core::mem::swap(&mut shapes, &mut self.shapes);
        let ghost entries = shapes@;
        let result = match find(&shapes, id) {
            Some(i) => {
                proof {
                    before.lemma_index_of(i as int);
                }
                let handles = shapes[i].handles();
                if 0 < handles && handles < u64::MAX {
                    shapes[i].retain();
                    proof {
                        let after = DeviceState { shapes: views(shapes@), ..before };
                        assert forall|j: int| 0 <= j < entries.len() && j != i implies (
                        #[trigger] after.shapes[j]) == before.shapes[j] by {
                            assert(shapes@[j] == entries[j]);
                        }
                        before.lemma_updated_at(after, i as int, ShapeState::retain());
                        before.lemma_updated(id, ShapeState::retain());
                    }
                    Some(Shape::new(id, shape.name()))
                } else {
                    None
                }
            },
            None => None,
        };
        self.shapes = shapes;
        result
    }

    /// Gives up one handle to a shape. The entry of a shape without handles
    /// stays in the registry until the next sweep.
    pub fn drop_shape(&mut self, shape: Shape)
        ensures
            final(self).wf(),
            final(self)@ == old(self)@.released(shape.id()),
    {
        proof {
            use_type_invariant(&*self);
        }
        let id = shape.id();
        let ghost before = self@;
        let mut shapes: Vec<ShapeData> = Vec::new();
        core::mem::swap(&mut shapes, &mut self.shapes);
        let ghost entries = shapes@;
        match find(&shapes, id) {
            Some(i) => {
                proof {
                    before.lemma_index_of(i as int);
                }
                shapes[i].release();
                proof {
                    let after = DeviceState { shapes: views(shapes@), ..before };
                    assert forall|j: int| 0 <= j < entries.len() && j != i implies (
                    #[trigger] after.shapes[j]) == before.shapes[j] by {
                        assert(shapes@[j] == entries[j]);
                    }
                    before.lemma_updated_at(after, i as int, ShapeState::release());
                    before.lemma_updated(id, ShapeState::release());
                }
            },
            None => {
                proof {
                    before.lemma_updated_absent(id, ShapeState::release());
                }
            },
        }
        self.shapes = shapes;
    }

    /// Submits one instance of `shape` for the next frame.
    pub fn draw_shape(&mut self, transform: ModelTransform, color: Color, shape: &Shape)
        ensures
            final(self).wf(),
            final(self)@ == old(self)@.drawn(shape.id(), Instance { transform, color }),
    {
        proof {
            use_type_invariant(&*self);
        }
        let instance = Instance { transform, color };
        let id = shape.id();
        let ghost before = self@;
        let mut shapes: Vec<ShapeData> = Vec::new();
        core::mem::swap(&mut shapes, &mut self.shapes);
        let ghost entries = shapes@;
        match find(&shapes, id) {
            Some(i) => {
                proof {
                    before.lemma_index_of(i as int);
                }
                shapes[i].push_instance(instance);
                proof {
                    let after = DeviceState { shapes: views(shapes@), ..before };
                    assert forall|j: int| 0 <= j < entries.len() && j != i implies (
                    #[trigger] after.shapes[j]) == before.shapes[j] by {
                        assert(shapes@[j] == entries[j]);
                    }
                    before.lemma_updated_at(after, i as int, ShapeState::draw(instance));
                    before.lemma_updated(id, ShapeState::draw(instance));
                }
            },
            None => {
                proof {
                    before.lemma_updated_absent(id, ShapeState::draw(instance));
                }
            },
        }
        self.shapes = shapes;
    }

    /// Sweeps the registry: removes the entries of the shapes without a
    /// handle and returns their identifiers, in registry order.
    pub fn sweep(&mut self) -> (released: Vec<u64>)
        ensures
            final(self).wf(),
            final(self)@ == old(self)@.swept(),
            released@ == old(self)@.dead_ids(),
    {
        proof {
            use_type_invariant(&*self);
        }
        let mut entries: Vec<ShapeData> = Vec::new();
        core::mem::swap(&mut entries, &mut self.shapes);
        let mut kept: Vec<ShapeData> = Vec::new();
        let mut released: Vec<u64> = Vec::new();
        let ghost before = old(self)@;
        let ghost all = views(entries@);
        for entry in iter: entries
            invariant
                iter.seq().len() == all.len(),
                forall|k: int| 0 <= k < all.len() ==> (#[trigger] iter.seq()[k])@ == all[k],
                views(kept@) == (DeviceState {
                    shapes: all.take(iter.index() as int),
                    ..before
                }).swept().shapes,
                released@ == (DeviceState {
                    shapes: all.take(iter.index() as int),
                    ..before
                }).dead_ids(),
        {
            proof {
                let seen = DeviceState { shapes: all.take(iter.index() as int), ..before };
                assert(all.take(iter.index() + 1) =~= all.take(iter.index() as int).push(entry@));
                seen.lemma_with_entry(entry@);
            }
            if entry.handles() > 0 {
                proof {
                    assert(views(kept@.push(entry)) =~= views(kept@).push(entry@));
                }
                kept.push(entry);
            } else {
                released.push(entry.id());
            }
        }
        proof {
            assert(all.take(all.len() as int) =~= all);
            before.lemma_swept_wf();
        }
        self.shapes = kept;
        released
    }

    /// Takes everything pending off every shape: one draw call, in registry
    /// order, for each shape with at least one pending instance. Afterwards
    /// nothing is pending.
    pub fn drain(&mut self) -> (batches: Vec<DrawBatch>)
        ensures
            final(self).wf(),
            final(self)@ == old(self)@.drained(),
            draw_calls_of(batches@) == old(self)@.draw_calls(),
    {
        proof {
            use_type_invariant(&*self);
        }
        let mut batches: Vec<DrawBatch> = Vec::new();
        let ghost before = old(self)@;
        let mut shapes: Vec<ShapeData> = Vec::new();
        core::mem::swap(&mut shapes, &mut self.shapes);
        let count = shapes.len();
        let mut i: usize = 0;
        while i < count
            invariant
                i <= count,
                count == shapes@.len(),
                before.wf(),
                before.shapes.len() == count,
                forall|k: int|
                    0 <= k < i ==> (#[trigger] views(shapes@)[k]) == before.shapes[k].drained(),
                forall|k: int| i <= k < count ==> (#[trigger] views(shapes@)[k]) == before.shapes[k],
                draw_calls_of(batches@) == (DeviceState {
                    shapes: before.shapes.take(i as int),
                    ..before
                }).draw_calls(),
            decreases count - i,
        {
            let ghost entry = before.shapes[i as int];
            let ghost earlier = views(shapes@);
            proof {
                let seen = DeviceState { shapes: before.shapes.take(i as int), ..before };
                assert(before.shapes.take(i + 1) =~= before.shapes.take(i as int).push(entry));
                seen.lemma_with_entry(entry);
                assert(views(shapes@)[i as int] == entry);
            }
            let batch = shapes[i].take_batch();
            proof {
                assert forall|k: int| 0 <= k < count && k != i implies (#[trigger] views(
                    shapes@,
                )[k]) == earlier[k] by {}
                assert(views(shapes@)[i as int] == entry.drained());
            }
            match batch {
                Some(batch) => {
                    proof {
                        assert(draw_calls_of(batches@.push(batch)) =~= draw_calls_of(
                            batches@,
                        ).push(batch@));
                    }
                    batches.push(batch);
                },
                None => {},
            }
            i += 1;
        }
        proof {
            assert(before.shapes.take(count as int) =~= before.shapes);
            before.lemma_drained_ids();
            assert(views(shapes@) =~= before.drained().shapes);
            before.lemma_drained_wf();
        }
        self.shapes = shapes;
        batches
    }

    /// Renders one frame: sweeps the registry, and then, where a target to
    /// render into was acquired, turns everything pending into the render
    /// pass of the frame. Where none was acquired the frame is skipped:
    /// everything pending stays queued for the next frame.
    pub fn render_frame(&mut self, clear_color: Color, acquired: bool) -> (report: FrameReport)
        ensures
            final(self).wf(),
            report.released@ == old(self)@.dead_ids(),
            acquired ==> final(self)@ == old(self)@.flushed(),
            acquired ==> (report.outcome matches Ok(pass) && pass.clear_color == clear_color
                && pass.draw_calls() == old(self)@.frame_draw_calls()),
            !acquired ==> final(self)@ == old(self)@.swept(),
            !acquired ==> report.outcome == Err::<RenderPass, FrameError>(
                FrameError::AcquisitionFailure,
            ),
    {
        self.render_frame_with(clear_color, acquired, SkipPolicy::KeepQueued)
    }

    /// Renders one frame as `render_frame` does, and treats what is pending
    /// when the frame is skipped as `policy` says: it stays queued for the
    /// next frame, or it is discarded.
    pub fn render_frame_with(&mut self, clear_color: Color, acquired: bool, policy: SkipPolicy) -> (report:
        FrameReport)
        ensures
            final(self).wf(),
            report.released@ == old(self)@.dead_ids(),
            acquired ==> final(self)@ == old(self)@.flushed(),
            acquired ==> (report.outcome matches Ok(pass) && pass.clear_color == clear_color
                && pass.draw_calls() == old(self)@.frame_draw_calls()),
            !acquired ==> final(self)@ == match policy {
                SkipPolicy::KeepQueued => old(self)@.swept(),
                SkipPolicy::DropStale => old(self)@.flushed(),
            },
            !acquired ==> report.outcome == Err::<RenderPass, FrameError>(
                FrameError::AcquisitionFailure,
            ),
    {
        let mut renderer = FrameRenderer::with_policy(policy);
        let released = match renderer.step(self, FrameEvent::Tick) {
            FrameAction::AcquireFrame { released } => released,
            _ => Vec::new(),
        };
        let event = if acquired {
            FrameEvent::FrameAcquired { clear_color }
        } else {
            FrameEvent::FrameLost
        };
        let outcome = match renderer.step(self, event) {
            FrameAction::EncodePass { pass } => {
                renderer.step(self, FrameEvent::QueueSubmitted);
                Ok(pass)
            },
            FrameAction::SkipFrame { error } => Err(error),
            _ => Err(FrameError::AcquisitionFailure),
        };
        FrameReport { released, outcome }
    }
}

} // verus!
