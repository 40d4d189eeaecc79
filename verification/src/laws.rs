use vstd::prelude::*;
use vstd::seq_lib::lemma_multiset_commutative;
use crate::color::Color;
use crate::frame::{FrameEvent, FrameState, SkipPolicy};
use crate::graphic_device::GraphicDevice;
use crate::lemmas::lemma_filter_keeps_order;
use crate::model_transform::ModelTransform;
use crate::registry::{valid_geometry, DeviceState, DrawCall, Instance, ShapeState};
use crate::uniforms::ViewUniforms;
use crate::utils::{
    at_most_epsilon, circle_is_point, spec_circle_indices, spec_circle_vertices, EPSILON_BITS,
    MAX_SEGMENTS, SIGN_BIT,
};
use crate::vertex::Vertex;

verus! {

/// A shape without a handle does not outlive the next frame: the sweep at the
/// start of the frame reports its identifier and removes its entry, and the
/// frame issues no draw call for it, whatever was pending on it.
pub proof fn law_unreferenced_shape_is_swept(device: DeviceState, id: u64)
    requires
        device.wf(),
        device.contains(id),
        !device.shape(id).is_live(),
    ensures
        device.dead_ids().contains(id),
        !device.swept().contains(id),
        !device.flushed().contains(id),
        forall|k: int|
            0 <= k < device.frame_draw_calls().len() ==> (
            #[trigger] device.frame_draw_calls()[k]).shape != id,
{
    device.lemma_dead_ids();
    device.lemma_swept_wf();
    let swept = device.swept();
    swept.lemma_draw_calls();
    swept.lemma_drained_ids();
    assert(!swept.contains(id));
    assert(swept.drained().contains(id) == swept.contains(id));
    assert forall|k: int| 0 <= k < swept.draw_calls().len() implies (
    #[trigger] swept.draw_calls()[k]).shape != id by {
        assert(swept.contains(swept.draw_calls()[k].shape));
    }
}

/// After a shape was created, `clones` further handles to it were made and
/// all the handles were dropped, the shape has no handle left, so that the
/// next frame removes it and draws nothing for it; and if the registry was
/// empty before, it is empty again after that frame.
pub proof fn law_dropped_shape_is_swept(
    device: DeviceState,
    vertices: Seq<Vertex>,
    indices: Seq<u16>,
    clones: nat,
)
    requires
        device.wf(),
        valid_geometry(vertices, indices),
        device.next_id < u64::MAX,
        clones < u64::MAX,
    ensures
        ({
            let id = device.next_id as u64;
            let dropped = device.created(vertices, indices).retained_times(
                id,
                clones,
            ).released_times(id, clones + 1);
            &&& dropped.wf()
            &&& dropped.contains(id)
            &&& !dropped.shape(id).is_live()
            &&& dropped.dead_ids().contains(id)
            &&& !dropped.flushed().contains(id)
            &&& forall|k: int|
                0 <= k < dropped.frame_draw_calls().len() ==> (
                #[trigger] dropped.frame_draw_calls()[k]).shape != id
            &&& device.shapes.len() == 0 ==> dropped.flushed().shapes.len() == 0
        }),
{
    let id = device.next_id as u64;
    let created = device.created(vertices, indices);
    device.lemma_created(vertices, indices);
    created.lemma_retained_times(id, clones);
    let shared = created.retained_times(id, clones);
    shared.lemma_released_times(id, clones + 1);
    let dropped = shared.released_times(id, clones + 1);
    law_unreferenced_shape_is_swept(dropped, id);
    if device.shapes.len() == 0 {
        dropped.lemma_swept_wf();
        if dropped.swept().shapes.len() > 0 {
            let kept = dropped.swept().shapes[0];
            assert(dropped.swept().contains(kept.id));
            assert(dropped.contains(kept.id));
            let j = dropped.index_of(kept.id);
            assert(j == 0);
            dropped.lemma_index_of(0);
        }
        assert(dropped.flushed().shapes.len() == dropped.swept().shapes.len());
    }
}

/// Right after a sweep the registry holds the shapes with at least one
/// handle, all of them and no others, each as it was and in the order in
/// which they stood.
pub proof fn law_swept_registry_is_live(device: DeviceState)
    requires
        device.wf(),
    ensures
        device.swept().wf(),
        forall|id: u64| #[trigger]
            device.swept().contains(id) <==> device.contains(id) && device.shape(id).is_live(),
        forall|id: u64| #[trigger]
            device.swept().contains(id) ==> device.swept().shape(id) == device.shape(id),
        forall|i: int|
            0 <= i < device.swept().shapes.len() ==> (#[trigger] device.swept().shapes[i]).is_live(),
{
    device.lemma_swept_wf();
    assert forall|id: u64| #[trigger] device.swept().contains(id) implies device.swept().shape(id)
        == device.shape(id) by {
        device.swept().lemma_shape_of_swept(device, id);
    }
    assert forall|id: u64| device.contains(id) && device.shape(id).is_live() implies #[trigger]
        device.swept().contains(id) by {}
}

/// A frame that finds its target takes the renderer from rest to recording
/// to submitted and back to rest, and the device through one flush: the tick
/// sweeps it and the acquired target drains it. A frame that finds none
/// takes the renderer from rest to recording and straight back; after the
/// sweep of the tick the device is not touched again where skipped frames
/// keep their instances queued, and it is drained where they drop them.
pub proof fn law_frame_cycle(device: DeviceState, clear_color: Color, policy: SkipPolicy)
    ensures
        ({
            let tick = FrameEvent::Tick;
            let acquired = FrameEvent::FrameAcquired { clear_color };
            let lost = FrameEvent::FrameLost;
            let submitted = FrameEvent::QueueSubmitted;
            let recording = FrameState::Idle.after(tick);
            let swept = FrameState::Idle.device_after(tick, policy, device);
            &&& recording == FrameState::Recording
            &&& swept == device.swept()
            &&& recording.after(acquired) == FrameState::Submitted
            &&& recording.device_after(acquired, policy, swept) == device.flushed()
            &&& FrameState::Submitted.after(submitted) == FrameState::Idle
            &&& FrameState::Submitted.device_after(submitted, policy, device.flushed())
                == device.flushed()
            &&& recording.after(lost) == FrameState::Idle
            &&& recording.device_after(lost, SkipPolicy::KeepQueued, swept) == device.swept()
            &&& recording.device_after(lost, SkipPolicy::DropStale, swept) == device.flushed()
        }),
{
}

/// A skipped frame that keeps its instances queued loses none of them: every
/// shape with a handle is as it was before the frame, with everything that
/// was pending on it, and the next frame that finds its target draws what
/// this one would have drawn.
pub proof fn law_skipped_frame_keeps_instances(device: DeviceState)
    requires
        device.wf(),
    ensures
        ({
            let skipped = FrameState::Recording.device_after(
                FrameEvent::FrameLost,
                SkipPolicy::KeepQueued,
                device.swept(),
            );
            &&& skipped == device.swept()
            &&& forall|id: u64|
                device.contains(id) && device.shape(id).is_live() ==> #[trigger] skipped.contains(
                    id,
                ) && skipped.shape(id) == device.shape(id)
            &&& skipped.frame_draw_calls() == device.frame_draw_calls()
            &&& skipped.flushed() == device.flushed()
        }),
{
    law_swept_registry_is_live(device);
    let swept = device.swept();
    swept.lemma_all_live_swept();
}

/// An event that has no place in the state of the renderer changes neither
/// the state nor the device.
pub proof fn law_event_out_of_turn(
    state: FrameState,
    event: FrameEvent,
    policy: SkipPolicy,
    device: DeviceState,
)
    requires
        !state.accepts(event),
    ensures
        state.after(event) == state,
        state.device_after(event, policy, device) == device,
{
}

/// Where nothing is pending on any shape, a frame issues no draw call and
/// empties no list: it only sweeps.
pub proof fn law_empty_flush(device: DeviceState)
    requires
        device.wf(),
        device.nothing_pending(),
    ensures
        device.frame_draw_calls().len() == 0,
        device.flushed() == device.swept(),
{
    device.lemma_swept_wf();
    let swept = device.swept();
    lemma_filter_keeps_order(device.shapes, ShapeState::live());
    assert forall|i: int| 0 <= i < swept.shapes.len() implies !(
    #[trigger] swept.shapes[i]).has_pending() by {
        assert(device.shapes.contains(swept.shapes[i]));
    }
    swept.lemma_draw_calls();
    if swept.draw_calls().len() > 0 {
        let call = swept.draw_calls()[0];
        let j = swept.index_of(call.shape);
        assert(!swept.shapes[j].has_pending());
    }
    assert forall|i: int| 0 <= i < swept.shapes.len() implies (#[trigger] swept.drained().shapes[i])
        == swept.shapes[i] by {
        assert(swept.shapes[i].pending =~= Seq::empty());
    }
    assert(swept.drained().shapes =~= swept.shapes);
}

/// Right after a frame nothing is pending and no entry is without a handle,
/// so that a second frame on its heels removes nothing, draws nothing and
/// leaves the device as the first one left it.
pub proof fn law_flush_is_idempotent(device: DeviceState)
    requires
        device.wf(),
    ensures
        device.flushed().wf(),
        device.flushed().nothing_pending(),
        device.flushed().dead_ids().len() == 0,
        device.flushed().frame_draw_calls().len() == 0,
        device.flushed().flushed() == device.flushed(),
{
    device.lemma_swept_wf();
    let swept = device.swept();
    swept.lemma_drained_wf();
    swept.lemma_drained_ids();
    let flushed = device.flushed();
    flushed.lemma_dead_ids();
    if flushed.dead_ids().len() > 0 {
        let id = flushed.dead_ids()[0];
        assert(flushed.dead_ids().contains(id));
        assert(flushed.contains(id) && !flushed.shape(id).is_live());
        assert(swept.contains(id));
        let j = swept.index_of(id);
        assert(swept.shapes[j].is_live());
    }
    assert forall|i: int| 0 <= i < flushed.shapes.len() implies (
    #[trigger] flushed.shapes[i]).is_live() by {
        assert(swept.shapes[i].is_live());
    }
    law_empty_flush(flushed);
    lemma_filter_keeps_order(flushed.shapes, ShapeState::live());
    flushed.lemma_swept_wf();
    assert(flushed.swept().shapes =~= flushed.shapes) by {
        flushed.lemma_all_live_swept();
    }
}

/// After any sequence of draws against one live shape, the next frame issues
/// one draw call for that shape, with everything that was pending on it
/// followed by the instances drawn, in the order of the draws, and with
/// nothing where that is nothing; once the frame is over the shape is still
/// there and nothing is pending on it.
pub proof fn law_instance_draining(device: DeviceState, id: u64, instances: Seq<Instance>)
    requires
        device.wf(),
        device.contains(id),
        device.shape(id).is_live(),
    ensures
        ({
            let queued = device.drawn_all(id, instances);
            let uploaded = device.shape(id).pending + instances;
            let calls = queued.frame_draw_calls();
            &&& queued.wf()
            &&& queued.shape(id).pending == uploaded
            &&& uploaded.len() == device.shape(id).pending.len() + instances.len()
            &&& uploaded.len() > 0 ==> calls.contains(
                DrawCall {
                    shape: id,
                    num_indices: device.shape(id).indices.len(),
                    instances: uploaded,
                },
            )
            &&& forall|k: int|
                0 <= k < calls.len() && (#[trigger] calls[k]).shape == id ==> calls[k].instances
                    == uploaded && uploaded.len() > 0
            &&& forall|k: int, l: int|
                0 <= k < calls.len() && 0 <= l < calls.len() && (#[trigger] calls[k]).shape == id
                    && (#[trigger] calls[l]).shape == id ==> k == l
            &&& queued.flushed().contains(id)
            &&& queued.flushed().shape(id).pending.len() == 0
        }),
{
    let queued = device.drawn_all(id, instances);
    device.lemma_drawn_all(id, instances);
    queued.lemma_swept_wf();
    let swept = queued.swept();
    assert(swept.contains(id));
    swept.lemma_shape_of_swept(queued, id);
    swept.lemma_draw_calls();
    let calls = swept.draw_calls();
    let uploaded = device.shape(id).pending + instances;
    let entry = swept.shape(id);
    assert(entry == queued.shape(id));
    assert(entry.id == id);
    assert(entry.pending == uploaded);
    assert(entry.indices == device.shape(id).indices);
    if uploaded.len() > 0 {
        assert(entry.has_pending());
        assert(calls.contains(entry.draw_call()));
    }
    assert forall|k: int| 0 <= k < calls.len() && (#[trigger] calls[k]).shape == id implies calls[k].instances
        == uploaded && uploaded.len() > 0 by {
        assert(calls[k] == swept.shape(calls[k].shape).draw_call());
    }
    assert forall|k: int, l: int|
        0 <= k < calls.len() && 0 <= l < calls.len() && (#[trigger] calls[k]).shape == id && (
        #[trigger] calls[l]).shape == id implies k == l by {
        if k < l {
            assert(calls[k].shape < calls[l].shape);
        } else if l < k {
            assert(calls[l].shape < calls[k].shape);
        }
    }
    swept.lemma_drained_ids();
}

/// Draws against one shape that reach the device in one order or in another
/// leave the same instances pending on it: every one of them, each as often
/// as it was drawn, on top of what was pending before. None is lost, and no
/// other shape is touched.
pub proof fn law_draws_in_any_order(
    device: DeviceState,
    id: u64,
    first: Seq<Instance>,
    second: Seq<Instance>,
)
    requires
        device.wf(),
        device.contains(id),
        first.to_multiset() == second.to_multiset(),
    ensures
        ({
            let one = device.drawn_all(id, first);
            let other = device.drawn_all(id, second);
            &&& one.shape(id).pending.to_multiset() == device.shape(id).pending.to_multiset().add(
                first.to_multiset(),
            )
            &&& one.shape(id).pending.to_multiset() == other.shape(id).pending.to_multiset()
            &&& one.shape(id).pending.len() == device.shape(id).pending.len() + first.len()
            &&& other.shape(id).pending.len() == one.shape(id).pending.len()
            &&& forall|k: int|
                0 <= k < first.len() ==> one.shape(id).pending.contains(#[trigger] first[k])
                    && other.shape(id).pending.contains(first[k])
            &&& forall|x: u64|
                x != id && device.contains(x) ==> one.shape(x) == device.shape(x) && other.shape(x)
                    == device.shape(x)
        }),
{
    device.lemma_drawn_all(id, first);
    device.lemma_drawn_all(id, second);
    let before = device.shape(id).pending;
    lemma_multiset_commutative(before, first);
    lemma_multiset_commutative(before, second);
    first.to_multiset_ensures();
    second.to_multiset_ensures();
    assert forall|k: int| 0 <= k < first.len() implies (before + first).contains(
        #[trigger] first[k],
    ) && (before + second).contains(first[k]) by {
        assert((before + first)[before.len() + k] == first[k]);
        assert(first.contains(first[k]));
        assert(second.to_multiset().count(first[k]) > 0);
        assert(second.contains(first[k]));
        let l = choose|l: int| 0 <= l < second.len() && second[l] == first[k];
        assert((before + second)[before.len() + l] == first[k]);
    }
}

/// Draws against two different shapes do not meet: in whichever order the two
/// reach the device, it ends the same.
pub proof fn law_draws_commute(
    device: DeviceState,
    first: u64,
    second: u64,
    one: Instance,
    other: Instance,
)
    requires
        first != second,
    ensures
        device.drawn(first, one).drawn(second, other) == device.drawn(second, other).drawn(
            first,
            one,
        ),
{
    assert(device.drawn(first, one).drawn(second, other).shapes =~= device.drawn(
        second,
        other,
    ).drawn(first, one).shapes);
}

/// Each of the three vertex buffers of the pipeline is tiled exactly by its
/// attributes, an element of it is as long as the words that are uploaded for
/// it, and the buffers feed the shader inputs 0 to 5, each input from one
/// attribute of one buffer.
pub proof fn law_vertex_buffers_fit()
    ensures
        ({
            let buffers = GraphicDevice::spec_vertex_buffers();
            &&& forall|b: int| 0 <= b < 3 ==> (#[trigger] buffers[b]).wf()
            &&& buffers[0].array_stride == Vertex::STRIDE == 4 * Vertex::origin().words().len()
            &&& forall|color: Color|
                buffers[1].array_stride == Color::STRIDE == 4 * (#[trigger] color.words()).len()
            &&& forall|transform: ModelTransform|
                buffers[2].array_stride == ModelTransform::STRIDE == 4 * (
                #[trigger] transform.words()).len()
            &&& forall|location: u32| #[trigger]
                GraphicDevice::feeds(location) <==> location < 6
            &&& forall|b: int, i: int, c: int, j: int|
                0 <= b < 3 && 0 <= i < buffers[b].attributes.len() && 0 <= c < 3 && 0 <= j
                    < buffers[c].attributes.len() && (#[trigger] buffers[b].attributes[i]).shader_location
                    == (#[trigger] buffers[c].attributes[j]).shader_location ==> b == c && i == j
        }),
{
    let buffers = GraphicDevice::spec_vertex_buffers();
    let transforms = ModelTransform::layout().attributes;
    assert(transforms.last() == transforms[3]);
    assert forall|location: u32| location < 6 implies #[trigger] GraphicDevice::feeds(
        location,
    ) by {
        if location == 0 {
            assert(buffers[0].attributes[0].shader_location == 0);
        } else if location == 1 {
            assert(buffers[1].attributes[0].shader_location == 1);
        } else {
            assert(buffers[2].attributes[location - 2].shader_location == location);
        }
    }
}

/// For a viewport with both sides positive, the half-extents of the view
/// stand to each other as the width to the height, the smaller of them is 1
/// and neither is below 1, so that a unit circle is drawn round.
pub proof fn law_view_preserves_aspect(width: u32, height: u32)
    requires
        width > 0,
        height > 0,
    ensures
        ({
            let view = ViewUniforms::spec_for_size(width, height);
            &&& view.half_width.denominator > 0
            &&& view.half_height.denominator > 0
            &&& view.half_width.numerator * view.half_height.denominator * height
                == view.half_height.numerator * view.half_width.denominator * width
            &&& view.half_width.is_unit() || view.half_height.is_unit()
            &&& view.half_width.numerator >= view.half_width.denominator
            &&& view.half_height.numerator >= view.half_height.denominator
            &&& width >= height ==> view.half_width.equals(width as int, height as int)
                && view.half_height.is_unit()
            &&& width < height ==> view.half_height.equals(height as int, width as int)
                && view.half_width.is_unit()
        }),
{
    let view = ViewUniforms::spec_for_size(width, height);
    if width >= height {
        assert(view.half_width.numerator * 1 * height == 1 * view.half_width.denominator * width)
            by (nonlinear_arith)
            requires
                view.half_width.numerator == width,
                view.half_width.denominator == height,
        ;
    } else {
        assert(1 * view.half_height.denominator * height == view.half_height.numerator * 1
            * width) by (nonlinear_arith)
            requires
                view.half_height.numerator == height,
                view.half_height.denominator == width,
        ;
    }
}

/// A circle without segments, whatever its radius, and a circle of radius
/// zero, whatever its segments, is the single point at the origin: one vertex
/// and the one index 0. Zero is at most the machine epsilon under either
/// sign, the epsilon itself is, and the number next above it is not.
pub proof fn law_degenerate_circle(radius: u32, num_vertices: nat, rim: Seq<Vertex>)
    ensures
        spec_circle_vertices(radius, 0, rim) == seq![Vertex::origin()],
        spec_circle_indices(radius, 0) == seq![0u16],
        spec_circle_vertices(0, num_vertices, rim) == seq![Vertex::origin()],
        spec_circle_indices(0, num_vertices) == seq![0u16],
        spec_circle_vertices(SIGN_BIT, num_vertices, rim) == seq![Vertex::origin()],
        spec_circle_indices(SIGN_BIT, num_vertices) == seq![0u16],
        at_most_epsilon(EPSILON_BITS),
        !at_most_epsilon((EPSILON_BITS + 1) as u32),
{
}

/// A circle that is no single point, with one vertex on its rim for each of
/// its segments, has one vertex more than segments, the centre first, and
/// three indices for each segment: every third index is the centre, the one
/// after it the rim vertex of the segment, and the last of the three the rim
/// vertex that follows, which after the last segment is the first again.
/// Every index names a vertex.
pub proof fn law_circle_tessellation(radius: u32, num_vertices: nat, rim: Seq<Vertex>)
    requires
        !circle_is_point(radius, num_vertices),
        num_vertices <= MAX_SEGMENTS,
        rim.len() == num_vertices,
    ensures
        ({
            let vertices = spec_circle_vertices(radius, num_vertices, rim);
            let indices = spec_circle_indices(radius, num_vertices);
            &&& vertices.len() == num_vertices + 1
            &&& vertices[0] == Vertex::origin()
            &&& forall|k: int| 0 <= k < num_vertices ==> #[trigger] vertices[k + 1] == rim[k]
            &&& indices.len() == 3 * num_vertices
            &&& forall|t: int|
                0 <= t < num_vertices ==> {
                    &&& #[trigger] indices[3 * t] == 0
                    &&& indices[3 * t + 1] == t + 1
                    &&& indices[3 * t + 2] == (t + 1) % (num_vertices as int) + 1
                }
            &&& valid_geometry(vertices, indices)
        }),
{
    let vertices = spec_circle_vertices(radius, num_vertices, rim);
    let indices = spec_circle_indices(radius, num_vertices);
    assert forall|t: int| 0 <= t < num_vertices implies {
        &&& #[trigger] indices[3 * t] == 0
        &&& indices[3 * t + 1] == t + 1
        &&& indices[3 * t + 2] == (t + 1) % (num_vertices as int) + 1
    } by {
        assert((3 * t) / 3 == t && (3 * t) % 3 == 0);
        assert((3 * t + 1) / 3 == t && (3 * t + 1) % 3 == 1);
        assert((3 * t + 2) / 3 == t && (3 * t + 2) % 3 == 2);
        if t + 1 == num_vertices {
            assert((t + 1) % (num_vertices as int) == 0);
        } else {
            assert((t + 1) % (num_vertices as int) == t + 1) by (nonlinear_arith)
                requires
                    0 <= t + 1 < num_vertices,
            ;
        }
    }
    assert forall|i: int| 0 <= i < indices.len() implies (#[trigger] indices[i])
        < vertices.len() by {
        let t = i / 3;
        assert(0 <= t < num_vertices);
    }
}

} // verus!
