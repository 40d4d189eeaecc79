use vstd::prelude::*;
use crate::registry::{increasing_ids, valid_geometry, DeviceState, Instance, ShapeState};
use crate::vertex::Vertex;

verus! {

/// What a filter keeps of a sequence with growing identifiers has growing
/// identifiers too, and each entry that it keeps is an entry of the sequence
/// and meets the filter.
pub proof fn lemma_filter_keeps_order(shapes: Seq<ShapeState>, keep: spec_fn(ShapeState) -> bool)
    requires
        increasing_ids(shapes),
    ensures
        increasing_ids(shapes.filter(keep)),
        forall|k: int|
            0 <= k < shapes.filter(keep).len() ==> shapes.contains(
                #[trigger] shapes.filter(keep)[k],
            ) && keep(shapes.filter(keep)[k]),
        forall|i: int|
            0 <= i < shapes.len() && keep(shapes[i]) ==> shapes.filter(keep).contains(
                #[trigger] shapes[i],
            ),
    decreases shapes.len(),
{
    reveal(Seq::filter);
    if shapes.len() > 0 {
        let front = shapes.drop_last();
        let last = shapes.last();
        lemma_filter_keeps_order(front, keep);
        let kept = front.filter(keep);
        assert forall|k: int| 0 <= k < kept.len() implies (#[trigger] kept[k]).id < last.id by {
            assert(front.contains(kept[k]));
            let j = choose|j: int| 0 <= j < front.len() && front[j] == kept[k];
            assert(shapes[j] == kept[k]);
            assert(shapes[shapes.len() - 1] == last);
        }
        assert forall|k: int| 0 <= k < shapes.filter(keep).len() implies shapes.contains(
            #[trigger] shapes.filter(keep)[k],
        ) && keep(shapes.filter(keep)[k]) by {
            if k < kept.len() {
                assert(front.contains(kept[k]));
                let j = choose|j: int| 0 <= j < front.len() && front[j] == kept[k];
                assert(shapes[j] == kept[k]);
            } else {
                assert(shapes[shapes.len() - 1] == last);
            }
        }
        assert forall|i: int| 0 <= i < shapes.len() && keep(shapes[i]) implies shapes.filter(
            keep,
        ).contains(#[trigger] shapes[i]) by {
            if i < front.len() {
                assert(front[i] == shapes[i]);
                assert(kept.contains(front[i]));
                let k = choose|k: int| 0 <= k < kept.len() && kept[k] == front[i];
                assert(shapes.filter(keep)[k] == shapes[i]);
            } else {
                assert(shapes.filter(keep)[kept.len() as int] == shapes[i]);
            }
        }
    }
}

/// Filtering a sequence with one more entry at its end: the entry is kept or
/// not, and what comes before it is filtered as before.
pub proof fn lemma_filter_push(
    shapes: Seq<ShapeState>,
    last: ShapeState,
    keep: spec_fn(ShapeState) -> bool,
)
    ensures
        shapes.push(last).filter(keep) == if keep(last) {
            shapes.filter(keep).push(last)
        } else {
            shapes.filter(keep)
        },
{
    reveal(Seq::filter);
    assert(shapes.push(last).drop_last() =~= shapes);
}

impl DeviceState {
    /// Sweeping, draining and collecting draw calls go entry by entry.
    pub proof fn lemma_with_entry(self, entry: ShapeState)
        ensures
            self.with_entry(entry).swept() == if entry.is_live() {
                self.swept().with_entry(entry)
            } else {
                self.swept()
            },
            self.with_entry(entry).dead_ids() == if entry.is_live() {
                self.dead_ids()
            } else {
                self.dead_ids().push(entry.id)
            },
            self.with_entry(entry).drained() == self.drained().with_entry(entry.drained()),
            self.with_entry(entry).draw_calls() == if entry.has_pending() {
                self.draw_calls().push(entry.draw_call())
            } else {
                self.draw_calls()
            },
    {
        lemma_filter_push(self.shapes, entry, ShapeState::live());
        lemma_filter_push(self.shapes, entry, ShapeState::dead());
        lemma_filter_push(self.shapes, entry, ShapeState::busy());
        let dead = self.shapes.filter(ShapeState::dead());
        let busy = self.shapes.filter(ShapeState::busy());
        assert(dead.push(entry).map_values(|s: ShapeState| s.id) =~= dead.map_values(
            |s: ShapeState| s.id,
        ).push(entry.id));
        assert(busy.push(entry).map_values(|s: ShapeState| s.draw_call()) =~= busy.map_values(
            |s: ShapeState| s.draw_call(),
        ).push(entry.draw_call()));
        assert(self.shapes.push(entry).map_values(|s: ShapeState| s.drained())
            =~= self.shapes.map_values(|s: ShapeState| s.drained()).push(entry.drained()));
    }

    /// A sweep of a well-formed device leaves a well-formed device in which
    /// every entry is live.
    pub proof fn lemma_swept_wf(self)
        requires
            self.wf(),
        ensures
            self.swept().wf(),
            forall|i: int|
                0 <= i < self.swept().shapes.len() ==> (#[trigger] self.swept().shapes[i]).is_live(),
            forall|id: u64| #[trigger]
                self.swept().contains(id) ==> self.contains(id) && self.shape(id).is_live(),
            forall|id: u64|
                self.contains(id) && (#[trigger] self.shape(id)).is_live() ==> self.swept().contains(
                    id,
                ),
    {
        let keep = ShapeState::live();
        lemma_filter_keeps_order(self.shapes, keep);
        let kept = self.shapes.filter(keep);
        assert forall|i: int| 0 <= i < kept.len() implies (#[trigger] kept[i]).wf() && kept[i].id
            < self.next_id && kept[i].is_live() by {
            assert(self.shapes.contains(kept[i]));
        }
        assert forall|id: u64| #[trigger] self.swept().contains(id) implies self.contains(id)
            && self.shape(id).is_live() by {
            let k = choose|k: int| 0 <= k < kept.len() && (#[trigger] kept[k]).id == id;
            assert(self.shapes.contains(kept[k]));
            let j = choose|j: int| 0 <= j < self.shapes.len() && self.shapes[j] == kept[k];
            assert(self.shapes[j].id == id);
            self.lemma_index_of(j);
        }
        assert forall|id: u64|
            self.contains(id) && (#[trigger] self.shape(id)).is_live() implies self.swept().contains(
            id,
        ) by {
            let j = self.index_of(id);
            assert(kept.contains(self.shapes[j]));
            let k = choose|k: int| 0 <= k < kept.len() && kept[k] == self.shapes[j];
            assert(self.swept().shapes[k].id == id);
        }
    }

    /// Draining a well-formed device leaves a well-formed device with
    /// nothing pending.
    pub proof fn lemma_drained_wf(self)
        requires
            self.wf(),
        ensures
            self.drained().wf(),
            self.drained().nothing_pending(),
    {
        assert forall|i: int| 0 <= i < self.shapes.len() implies (
        #[trigger] self.drained().shapes[i]) == self.shapes[i].drained() by {}
    }

    /// What a change of one entry does to the device, where the change keeps
    /// the identifier and the well-formedness of that entry.
    pub proof fn lemma_updated(self, id: u64, change: spec_fn(ShapeState) -> ShapeState)
        requires
            self.wf(),
            self.contains(id) ==> change(self.shape(id)).wf() && change(self.shape(id)).id == id,
        ensures
            self.updated(id, change).wf(),
            self.updated(id, change).shapes.len() == self.shapes.len(),
            forall|x: u64| #[trigger] self.updated(id, change).contains(x) == self.contains(x),
            self.contains(id) ==> self.updated(id, change).shape(id) == change(self.shape(id)),
            !self.contains(id) ==> self.updated(id, change) == self,
            forall|x: u64|
                x != id && self.contains(x) ==> #[trigger] self.updated(id, change).shape(x)
                    == self.shape(x),
    {
        let after = self.updated(id, change);
        assert forall|i: int| 0 <= i < self.shapes.len() implies (#[trigger] after.shapes[i]).id
            == self.shapes[i].id && after.shapes[i].wf() && (self.shapes[i].id != id
            ==> after.shapes[i] == self.shapes[i]) && (self.shapes[i].id == id ==> after.shapes[i]
            == change(self.shapes[i])) by {
            self.lemma_index_of(i);
        }
        assert forall|x: u64| #[trigger] after.contains(x) == self.contains(x) by {
            if after.contains(x) {
                let i = after.index_of(x);
                assert(self.shapes[i].id == x);
            }
            if self.contains(x) {
                let i = self.index_of(x);
                assert(after.shapes[i].id == x);
            }
        }
        assert(after.wf());
        assert forall|x: u64| self.contains(x) implies after.shape(x) == if x == id {
            change(self.shape(x))
        } else {
            self.shape(x)
        } by {
            let i = self.index_of(x);
            self.lemma_index_of(i);
            assert(after.shapes[i].id == x);
            after.lemma_index_of(i);
        }
        if !self.contains(id) {
            assert(after.shapes =~= self.shapes);
        }
    }

    /// Draining keeps every entry in its place and under its identifier.
    pub proof fn lemma_drained_ids(self)
        requires
            self.wf(),
        ensures
            self.drained().shapes.len() == self.shapes.len(),
            forall|i: int|
                0 <= i < self.shapes.len() ==> (#[trigger] self.drained().shapes[i])
                    == self.shapes[i].drained(),
            forall|id: u64| #[trigger] self.drained().contains(id) == self.contains(id),
            forall|id: u64|
                self.contains(id) ==> #[trigger] self.drained().shape(id) == self.shape(
                    id,
                ).drained(),
    {
        self.lemma_drained_wf();
        let after = self.drained();
        assert forall|id: u64| #[trigger] after.contains(id) == self.contains(id) by {
            if after.contains(id) {
                let i = after.index_of(id);
                assert(self.shapes[i].id == id);
            }
            if self.contains(id) {
                let i = self.index_of(id);
                assert(after.shapes[i].id == id);
            }
        }
        assert forall|id: u64| self.contains(id) implies #[trigger] after.shape(id) == self.shape(
            id,
        ).drained() by {
            let i = self.index_of(id);
            self.lemma_index_of(i);
            assert(after.shapes[i].id == id);
            after.lemma_index_of(i);
        }
    }

    /// A sweep leaves a device alone in which every entry has a handle.
    pub proof fn lemma_all_live_swept(self)
        requires
            forall|i: int| 0 <= i < self.shapes.len() ==> (#[trigger] self.shapes[i]).is_live(),
        ensures
            self.swept() == self,
        decreases self.shapes.len(),
    {
        reveal(Seq::filter);
        if self.shapes.len() > 0 {
            let front = DeviceState { shapes: self.shapes.drop_last(), ..self };
            front.lemma_all_live_swept();
            assert(self.shapes.drop_last().push(self.shapes.last()) =~= self.shapes);
        }
        assert(self.swept().shapes =~= self.shapes);
    }

    /// An entry that a sweep keeps is the entry that was there before.
    pub proof fn lemma_shape_of_swept(self, before: DeviceState, id: u64)
        requires
            before.wf(),
            self == before.swept(),
            self.contains(id),
        ensures
            before.contains(id),
            self.shape(id) == before.shape(id),
    {
        before.lemma_swept_wf();
        lemma_filter_keeps_order(before.shapes, ShapeState::live());
        let k = self.index_of(id);
        assert(before.shapes.contains(self.shapes[k]));
        let j = choose|j: int| 0 <= j < before.shapes.len() && before.shapes[j] == self.shapes[k];
        before.lemma_index_of(j);
    }

    /// What the creation of a shape does to the device.
    pub proof fn lemma_created(self, vertices: Seq<Vertex>, indices: Seq<u16>)
        requires
            self.wf(),
            valid_geometry(vertices, indices),
            self.next_id < u64::MAX,
        ensures
            self.created(vertices, indices).wf(),
            !self.contains(self.next_id as u64),
            self.created(vertices, indices).contains(self.next_id as u64),
            self.created(vertices, indices).shape(self.next_id as u64) == ShapeState::fresh(
                self.next_id as u64,
                vertices,
                indices,
            ),
            forall|id: u64|
                self.contains(id) ==> self.created(vertices, indices).contains(id) && self.created(
                    vertices,
                    indices,
                ).shape(id) == self.shape(id),
            self.created(vertices, indices).shapes.len() == self.shapes.len() + 1,
    {
        let after = self.created(vertices, indices);
        let id = self.next_id as u64;
        assert(after.shapes[self.shapes.len() as int].id == id);
        assert(after.wf());
        after.lemma_index_of(self.shapes.len() as int);
        assert forall|x: u64| self.contains(x) implies after.contains(x) && after.shape(x)
            == self.shape(x) by {
            let i = self.index_of(x);
            assert(after.shapes[i] == self.shapes[i]);
            after.lemma_index_of(i);
        }
    }

    /// Where only entry `i` changed, and changed as `change` says, the device
    /// is the one before with that entry updated.
    pub proof fn lemma_updated_at(
        self,
        after: DeviceState,
        i: int,
        change: spec_fn(ShapeState) -> ShapeState,
    )
        requires
            self.wf(),
            0 <= i < self.shapes.len(),
            after.shapes.len() == self.shapes.len(),
            forall|j: int|
                0 <= j < self.shapes.len() && j != i ==> (#[trigger] after.shapes[j])
                    == self.shapes[j],
            after.shapes[i] == change(self.shapes[i]),
            after.next_id == self.next_id,
            after.width == self.width,
            after.height == self.height,
        ensures
            after == self.updated(self.shapes[i].id, change),
    {
        let id = self.shapes[i].id;
        assert forall|j: int| 0 <= j < self.shapes.len() implies after.shapes[j] == if self.shapes[j].id
            == id {
            change(self.shapes[j])
        } else {
            self.shapes[j]
        } by {
            if j != i {
                if j < i {
                    assert(self.shapes[j].id < self.shapes[i].id);
                } else {
                    assert(self.shapes[i].id < self.shapes[j].id);
                }
            }
        }
        assert(after.shapes =~= self.updated(id, change).shapes);
    }

    /// Where no entry has the identifier `id`, a change of the entry for
    /// `id` changes nothing.
    pub proof fn lemma_updated_absent(self, id: u64, change: spec_fn(ShapeState) -> ShapeState)
        requires
            forall|j: int| 0 <= j < self.shapes.len() ==> (#[trigger] self.shapes[j]).id != id,
        ensures
            !self.contains(id),
            self.updated(id, change) == self,
    {
        assert(self.updated(id, change).shapes =~= self.shapes);
    }

    /// In a well-formed device an identifier names one entry only.
    pub proof fn lemma_index_of(self, i: int)
        requires
            self.wf(),
            0 <= i < self.shapes.len(),
        ensures
            self.contains(self.shapes[i].id),
            self.index_of(self.shapes[i].id) == i,
            self.shape(self.shapes[i].id) == self.shapes[i],
    {
        let id = self.shapes[i].id;
        let j = self.index_of(id);
        if j < i {
            assert(self.shapes[j].id < self.shapes[i].id);
        } else if i < j {
            assert(self.shapes[i].id < self.shapes[j].id);
        }
    }

    /// Submitting instances against a shape appends them to its pending
    /// list, in the order of submission, and touches nothing else.
    pub proof fn lemma_drawn_all(self, id: u64, instances: Seq<Instance>)
        requires
            self.wf(),
        ensures
            self.drawn_all(id, instances).wf(),
            forall|x: u64| self.drawn_all(id, instances).contains(x) == self.contains(x),
            self.contains(id) ==> self.drawn_all(id, instances).shape(id) == (ShapeState {
                pending: self.shape(id).pending + instances,
                ..self.shape(id)
            }),
            !self.contains(id) ==> self.drawn_all(id, instances) == self,
            forall|x: u64|
                x != id && self.contains(x) ==> self.drawn_all(id, instances).shape(x)
                    == self.shape(x),
        decreases instances.len(),
    {
        if instances.len() == 0 {
            if self.contains(id) {
                assert(self.shape(id).pending + instances =~= self.shape(id).pending);
            }
        } else {
            let front = instances.drop_last();
            let last = instances.last();
            self.lemma_drawn_all(id, front);
            let before = self.drawn_all(id, front);
            before.lemma_updated(id, ShapeState::draw(last));
            if self.contains(id) {
                assert((self.shape(id).pending + front).push(last) =~= self.shape(id).pending
                    + instances);
            }
        }
    }

    /// The draw calls of a device: one for each shape with something
    /// pending, none for any other, in the order of the identifiers.
    pub proof fn lemma_draw_calls(self)
        requires
            self.wf(),
        ensures
            forall|k: int|
                0 <= k < self.draw_calls().len() ==> {
                    let call = #[trigger] self.draw_calls()[k];
                    &&& self.contains(call.shape)
                    &&& self.shape(call.shape).has_pending()
                    &&& call == self.shape(call.shape).draw_call()
                },
            forall|k: int, l: int|
                0 <= k < l < self.draw_calls().len() ==> (#[trigger] self.draw_calls()[k]).shape < (
                #[trigger] self.draw_calls()[l]).shape,
            forall|id: u64|
                self.contains(id) && self.shape(id).has_pending() ==> self.draw_calls().contains(
                    #[trigger] self.shape(id).draw_call(),
                ),
    {
        lemma_filter_keeps_order(self.shapes, ShapeState::busy());
        let busy = self.shapes.filter(ShapeState::busy());
        assert forall|k: int| 0 <= k < self.draw_calls().len() implies {
            let call = #[trigger] self.draw_calls()[k];
            &&& self.contains(call.shape)
            &&& self.shape(call.shape).has_pending()
            &&& call == self.shape(call.shape).draw_call()
        } by {
            assert(self.shapes.contains(busy[k]));
            let j = choose|j: int| 0 <= j < self.shapes.len() && self.shapes[j] == busy[k];
            self.lemma_index_of(j);
        }
        assert forall|k: int, l: int| 0 <= k < l < self.draw_calls().len() implies (
        #[trigger] self.draw_calls()[k]).shape < (#[trigger] self.draw_calls()[l]).shape by {
            assert(busy[k].id < busy[l].id);
        }
        assert forall|id: u64|
            self.contains(id) && self.shape(id).has_pending() implies self.draw_calls().contains(
            #[trigger] self.shape(id).draw_call(),
        ) by {
            let j = self.index_of(id);
            assert(busy.contains(self.shapes[j]));
            let k = choose|k: int| 0 <= k < busy.len() && busy[k] == self.shapes[j];
            assert(self.draw_calls()[k] == self.shape(id).draw_call());
        }
    }

    /// The identifiers that a sweep removes are those of the entries without
    /// a handle.
    pub proof fn lemma_dead_ids(self)
        requires
            self.wf(),
        ensures
            forall|id: u64| #[trigger]
                self.dead_ids().contains(id) ==> self.contains(id) && !self.shape(id).is_live(),
            forall|id: u64|
                self.contains(id) && !(#[trigger] self.shape(id)).is_live()
                    ==> self.dead_ids().contains(id),
    {
        lemma_filter_keeps_order(self.shapes, ShapeState::dead());
        let dead = self.shapes.filter(ShapeState::dead());
        assert forall|id: u64| #[trigger] self.dead_ids().contains(id) implies self.contains(id)
            && !self.shape(id).is_live() by {
            let k = choose|k: int| 0 <= k < self.dead_ids().len() && self.dead_ids()[k] == id;
            assert(self.shapes.contains(dead[k]));
            let j = choose|j: int| 0 <= j < self.shapes.len() && self.shapes[j] == dead[k];
            self.lemma_index_of(j);
        }
        assert forall|id: u64|
            self.contains(id) && !(#[trigger] self.shape(id)).is_live() implies self.dead_ids().contains(
            id,
        ) by {
            let j = self.index_of(id);
            assert(dead.contains(self.shapes[j]));
            let k = choose|k: int| 0 <= k < dead.len() && dead[k] == self.shapes[j];
            assert(self.dead_ids()[k] == id);
        }
    }

    /// Cloning handles to a shape adds to its count and touches nothing
    /// else.
    pub proof fn lemma_retained_times(self, id: u64, count: nat)
        requires
            self.wf(),
            self.contains(id),
            self.shape(id).handles + count <= u64::MAX,
        ensures
            self.retained_times(id, count).wf(),
            self.retained_times(id, count).contains(id),
            self.retained_times(id, count).shapes.len() == self.shapes.len(),
            self.retained_times(id, count).shape(id) == (ShapeState {
                handles: self.shape(id).handles + count,
                ..self.shape(id)
            }),
        decreases count,
    {
        if count > 0 {
            self.lemma_retained_times(id, (count - 1) as nat);
            self.retained_times(id, (count - 1) as nat).lemma_updated(id, ShapeState::retain());
        }
    }

    /// Dropping handles to a shape takes from its count, down to none, and
    /// touches nothing else.
    pub proof fn lemma_released_times(self, id: u64, count: nat)
        requires
            self.wf(),
            self.contains(id),
        ensures
            self.released_times(id, count).wf(),
            self.released_times(id, count).contains(id),
            self.released_times(id, count).shapes.len() == self.shapes.len(),
            self.released_times(id, count).shape(id) == (ShapeState {
                handles: if self.shape(id).handles >= count {
                    (self.shape(id).handles - count) as nat
                } else {
                    0
                },
                ..self.shape(id)
            }),
        decreases count,
    {
        if count > 0 {
            self.lemma_released_times(id, (count - 1) as nat);
            self.released_times(id, (count - 1) as nat).lemma_updated(id, ShapeState::release());
        }
    }
}

} // verus!
