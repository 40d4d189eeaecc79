use vstd::prelude::*;
use crate::color::Color;
use crate::model_transform::ModelTransform;
use crate::uniforms::ViewUniforms;
use crate::vertex::Vertex;

verus! {

/// One draw submission against a shape: where to draw it and in which colour.
#[derive(Clone, Copy, Debug, PartialEq, Eq)]
pub struct Instance {
    pub transform: ModelTransform,
    pub color: Color,
}

/// Every index names a vertex, and one draw call can count the indices.
pub open spec fn valid_geometry(vertices: Seq<Vertex>, indices: Seq<u16>) -> bool {
    &&& indices.len() <= u32::MAX
    &&& forall|i: int| 0 <= i < indices.len() ==> (#[trigger] indices[i]) < vertices.len()
}

/// One instanced draw call: the geometry of `shape`, drawn once for each
/// instance.
pub struct DrawCall {
    pub shape: u64,
    pub num_indices: nat,
    pub instances: Seq<Instance>,
}

/// A registry entry as a mathematical value: the geometry of one shape, the
/// number of handles that share it, and the instances submitted against it
/// since the last frame, oldest first.
pub struct ShapeState {
    pub id: u64,
    pub handles: nat,
    pub vertices: Seq<Vertex>,
    pub indices: Seq<u16>,
    pub pending: Seq<Instance>,
}

impl ShapeState {
    /// A fresh entry: one handle, nothing pending.
    pub open spec fn fresh(id: u64, vertices: Seq<Vertex>, indices: Seq<u16>) -> ShapeState {
        ShapeState { id, handles: 1, vertices, indices, pending: Seq::empty() }
    }

    /// The geometry is valid and the handles can be counted.
    pub open spec fn wf(self) -> bool {
        &&& valid_geometry(self.vertices, self.indices)
        &&& self.handles <= u64::MAX
    }

    /// At least one handle to the shape exists.
    pub open spec fn is_live(self) -> bool {
        self.handles > 0
    }

    /// At least one instance waits for the next frame.
    pub open spec fn has_pending(self) -> bool {
        self.pending.len() > 0
    }

    /// The test for entries with a handle.
    pub open spec fn live() -> spec_fn(ShapeState) -> bool {
        |s: ShapeState| s.is_live()
    }

    /// The test for entries without a handle.
    pub open spec fn dead() -> spec_fn(ShapeState) -> bool {
        |s: ShapeState| !s.is_live()
    }

    /// The test for entries with a pending instance.
    pub open spec fn busy() -> spec_fn(ShapeState) -> bool {
        |s: ShapeState| s.has_pending()
    }

    /// The change that counts one handle more.
    pub open spec fn retain() -> spec_fn(ShapeState) -> ShapeState {
        |s: ShapeState| s.retained()
    }

    /// The change that counts one handle less.
    pub open spec fn release() -> spec_fn(ShapeState) -> ShapeState {
        |s: ShapeState| s.released()
    }

    /// The change that appends `instance` to the pending list.
    pub open spec fn draw(instance: Instance) -> spec_fn(ShapeState) -> ShapeState {
        |s: ShapeState| s.drawn(instance)
    }

    /// The entry with one handle more.
    pub open spec fn retained(self) -> ShapeState {
        ShapeState { handles: self.handles + 1, ..self }
    }

    /// The entry with one handle less; an entry without handles stays so.
    pub open spec fn released(self) -> ShapeState {
        ShapeState { handles: if self.handles > 0 { (self.handles - 1) as nat } else { 0 }, ..self }
    }

    /// The entry with `instance` appended to its pending list.
    pub open spec fn drawn(self, instance: Instance) -> ShapeState {
        ShapeState { pending: self.pending.push(instance), ..self }
    }

    /// The entry with nothing pending.
    pub open spec fn drained(self) -> ShapeState {
        ShapeState { pending: Seq::empty(), ..self }
    }

    /// The draw call that renders everything pending on the entry.
    pub open spec fn draw_call(self) -> DrawCall {
        DrawCall { shape: self.id, num_indices: self.indices.len(), instances: self.pending }
    }
}

/// The device as a mathematical value: the registry entries in the order in
/// which the shapes were created, the next identifier to hand out, and the
/// size of the viewport.
pub struct DeviceState {
    pub shapes: Seq<ShapeState>,
    pub next_id: nat,
    pub width: u32,
    pub height: u32,
}

impl DeviceState {
    /// A device without shapes for a viewport of `width` by `height` pixels.
    pub open spec fn empty(width: u32, height: u32) -> DeviceState {
        DeviceState::numbered_from(width, height, 0)
    }

    /// A device without shapes that hands out the identifiers from
    /// `first_id` on.
    pub open spec fn numbered_from(width: u32, height: u32, first_id: u64) -> DeviceState {
        DeviceState { shapes: Seq::empty(), next_id: first_id as nat, width, height }
    }

    /// Every entry is well formed, the identifiers grow along the registry,
    /// and all of them lie below the next one to hand out.
    pub open spec fn wf(self) -> bool {
        &&& self.next_id <= u64::MAX
        &&& forall|i: int| 0 <= i < self.shapes.len() ==> (#[trigger] self.shapes[i]).wf()
        &&& forall|i: int|
            0 <= i < self.shapes.len() ==> (#[trigger] self.shapes[i]).id < self.next_id
        &&& increasing_ids(self.shapes)
    }

    /// The registry holds an entry for `id`.
    pub open spec fn contains(self, id: u64) -> bool {
        exists|i: int| 0 <= i < self.shapes.len() && (#[trigger] self.shapes[i]).id == id
    }

    /// The place of the entry for `id` in the registry.
    pub open spec fn index_of(self, id: u64) -> int {
        choose|i: int| 0 <= i < self.shapes.len() && (#[trigger] self.shapes[i]).id == id
    }

    /// The entry for `id`.
    pub open spec fn shape(self, id: u64) -> ShapeState
        recommends
            self.contains(id),
    {
        self.shapes[self.index_of(id)]
    }

    /// The projection of the current viewport.
    pub open spec fn view_uniforms(self) -> ViewUniforms {
        ViewUniforms::spec_for_size(self.width, self.height)
    }

    /// The device after the viewport took the size `width` by `height`.
    pub open spec fn resized(self, width: u32, height: u32) -> DeviceState {
        DeviceState { width, height, ..self }
    }

    /// The device after a shape with the geometry given was created: a fresh
    /// entry at the end of the registry, under the next identifier.
    pub open spec fn created(self, vertices: Seq<Vertex>, indices: Seq<u16>) -> DeviceState {
        DeviceState {
            shapes: self.shapes.push(ShapeState::fresh(self.next_id as u64, vertices, indices)),
            next_id: self.next_id + 1,
            ..self
        }
    }

    /// The device after the entry for `id` changed as `change` says; every
    /// other entry stays as it is, and so does a device without such an
    /// entry.
    pub open spec fn updated(self, id: u64, change: spec_fn(ShapeState) -> ShapeState)
        -> DeviceState {
        DeviceState {
            shapes: self.shapes.map_values(|s: ShapeState| if s.id == id { change(s) } else { s }),
            ..self
        }
    }

    /// The device after a handle to shape `id` was cloned.
    pub open spec fn retained(self, id: u64) -> DeviceState {
        self.updated(id, ShapeState::retain())
    }

    /// The device after a handle to shape `id` was dropped.
    pub open spec fn released(self, id: u64) -> DeviceState {
        self.updated(id, ShapeState::release())
    }

    /// The device after `instance` was submitted against shape `id`: the
    /// instance is appended to the pending list of that shape, and a device
    /// without such a shape stays as it is.
    pub open spec fn drawn(self, id: u64, instance: Instance) -> DeviceState {
        self.updated(id, ShapeState::draw(instance))
    }

    /// The device after the instances were submitted against shape `id`, one
    /// after the other.
    pub open spec fn drawn_all(self, id: u64, instances: Seq<Instance>) -> DeviceState
        decreases instances.len(),
    {
        if instances.len() == 0 {
            self
        } else {
            self.drawn_all(id, instances.drop_last()).drawn(id, instances.last())
        }
    }

    /// The device after `count` handles to shape `id` were cloned.
    pub open spec fn retained_times(self, id: u64, count: nat) -> DeviceState
        decreases count,
    {
        if count == 0 {
            self
        } else {
            self.retained_times(id, (count - 1) as nat).retained(id)
        }
    }

    /// The device after `count` handles to shape `id` were dropped.
    pub open spec fn released_times(self, id: u64, count: nat) -> DeviceState
        decreases count,
    {
        if count == 0 {
            self
        } else {
            self.released_times(id, (count - 1) as nat).released(id)
        }
    }

    /// The device after one frame that found its target: swept, and then
    /// drained.
    pub open spec fn flushed(self) -> DeviceState {
        self.swept().drained()
    }

    /// The draw calls of one frame: those of the device once it is swept.
    pub open spec fn frame_draw_calls(self) -> Seq<DrawCall> {
        self.swept().draw_calls()
    }

    /// The device after the registry was swept: the entries without a handle
    /// are gone, the others stay in their order.
    pub open spec fn swept(self) -> DeviceState {
        DeviceState { shapes: self.shapes.filter(ShapeState::live()), ..self }
    }

    /// The identifiers that a sweep removes, in registry order.
    pub open spec fn dead_ids(self) -> Seq<u64> {
        self.shapes.filter(ShapeState::dead()).map_values(|s: ShapeState| s.id)
    }

    /// The device after every pending list was emptied.
    pub open spec fn drained(self) -> DeviceState {
        DeviceState { shapes: self.shapes.map_values(|s: ShapeState| s.drained()), ..self }
    }

    /// The draw calls that render everything pending: one for each shape with
    /// at least one pending instance, in registry order.
    pub open spec fn draw_calls(self) -> Seq<DrawCall> {
        self.shapes.filter(ShapeState::busy()).map_values(|s: ShapeState| s.draw_call())
    }

    /// The device with one more entry at the end of its registry.
    pub open spec fn with_entry(self, entry: ShapeState) -> DeviceState {
        DeviceState { shapes: self.shapes.push(entry), ..self }
    }

    /// Nothing is pending on any shape.
    pub open spec fn nothing_pending(self) -> bool {
        forall|i: int| 0 <= i < self.shapes.len() ==> !(#[trigger] self.shapes[i]).has_pending()
    }
}

/// The identifiers grow along the sequence.
pub open spec fn increasing_ids(shapes: Seq<ShapeState>) -> bool {
    forall|i: int, j: int|
        0 <= i < j < shapes.len() ==> (#[trigger] shapes[i]).id < (#[trigger] shapes[j]).id
}

} // verus!
