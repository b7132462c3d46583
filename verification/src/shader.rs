//! A compiled compute pipeline with a named binding table, and the
//! dispatch-then-copy-back execution step.
//!
//! The binding table maps names to bindings; binding the same name again
//! replaces the earlier entry. Execution partitions the table by bind-group
//! index, builds one bind group per distinct index from exactly the
//! bindings declared for it, records one dispatch, then a staging copy for
//! every binding flagged for copy-back, and submits the lot to the queue.
//! What the two recording steps append to a command recorder is stated
//! exactly, over the recorder's named contents; a request the device
//! rejects comes back as an error. Executing changes nothing in the shader
//! itself, so repeating it with an untouched table records the same
//! commands again.

use crate::binding::Binding;
use crate::device;
use crate::device::{bind_group_entries, buffer_id, encoder_commands, Command};
use crate::error::EngineError;
use crate::gpu::{share_gpu, Gpu};
use crate::grouping::{distinct_groups, positions_of_group, spec_distinct_groups,
    spec_positions_of};
use crate::layout::spec_align_up;
use std::rc::Rc;
use vstd::prelude::*;

verus! {

/// The name-to-binding table as a map from name text to binding; later
/// entries of the list shadow earlier ones of the same name.
pub open spec fn spec_table(s: Seq<(String, Binding)>) -> Map<Seq<char>, Binding>
    decreases s.len(),
{
    if s.len() == 0 {
        Map::empty()
    } else {
        spec_table(s.drop_last()).insert(s.last().0@, s.last().1)
    }
}

/// A compiled compute pipeline and its named binding table.
pub struct Shader {
    pub gpu: Rc<Gpu>,
    pub bindings: Vec<(String, Binding)>,
    pub compute_pipeline: wgpu::ComputePipeline,
}

impl Shader {
    /// No two table entries carry the same name.
    pub open spec fn names_unique(self) -> bool {
        forall|i: int, j: int|
            0 <= i < j < self.bindings@.len() ==> self.bindings@[i].0@ != self.bindings@[j].0@
    }

    /// Every bound buffer is well-formed.
    pub open spec fn buffers_wf(self) -> bool {
        forall|i: int| 0 <= i < self.bindings@.len() ==> (#[trigger] self.bindings@[i].1).wf()
    }

    /// Well-formed: binding names are unique and every binding's buffer is
    /// well-formed.
    pub open spec fn wf(self) -> bool {
        self.names_unique() && self.buffers_wf()
    }

    /// The current name-to-binding table.
    pub open spec fn table(self) -> Map<Seq<char>, Binding> {
        spec_table(self.bindings@)
    }

    /// Compiles `src` into a compute pipeline with entry point
    /// `entry_point`; the binding table starts empty. Ill-formed source or
    /// an unknown entry point is returned as the device's validation error.
    pub fn new(gpu: Rc<Gpu>, src: &str, entry_point: &str) -> (r: Result<Shader, EngineError>)
        ensures
            r matches Ok(s) ==> {
                &&& s.wf()
                &&& s.table() == Map::<Seq<char>, Binding>::empty()
                &&& s.gpu == gpu
                &&& s.bindings@.len() == 0
            },
    {
        let module = match device::compile_module(&gpu.device, src) {
            Ok(m) => m,
            Err(e) => {
                return Err(e);
            },
        };
        let compute_pipeline = match device::create_pipeline(&gpu.device, &module, entry_point) {
            Ok(p) => p,
            Err(e) => {
                return Err(e);
            },
        };
        Ok(Shader { gpu, bindings: Vec::new(), compute_pipeline })
    }

    /// Inserts or replaces the binding under `name`: afterwards the table
    /// is the old table with `name` mapped to `binding`, and nothing else
    /// changed. The last write for a name wins.
    pub fn bind(&mut self, name: &str, binding: Binding)
        requires
            old(self).names_unique(),
        ensures
            final(self).table() == old(self).table().insert(name@, binding),
            final(self).gpu == old(self).gpu,
            final(self).compute_pipeline == old(self).compute_pipeline,
            final(self).names_unique(),
            old(self).buffers_wf() && binding.wf() ==> final(self).buffers_wf(),
    {
        let key: String = name.to_owned();
        let mut i: usize = 0;
        let n = self.bindings.len();
        while i < n
            invariant
                i <= n,
                n == self.bindings@.len(),
                *self == *old(self),
                old(self).names_unique(),
                key@ == name@,
                forall|j: int| 0 <= j < i ==> self.bindings@[j].0@ != key@,
            decreases n - i,
        {
            if self.bindings[i].0 == key {
                let ghost pre = self.bindings@;
                self.bindings.set(i, (key, binding));
                proof {
                    lemma_table_replace(pre, i as int, key, binding);
                    assert(self.table() =~= old(self).table().insert(name@, binding));
                    assert forall|a: int, b: int|
                        0 <= a < b < self.bindings@.len() implies self.bindings@[a].0@
                        != self.bindings@[b].0@ by {
                        assert(pre[a].0@ != pre[b].0@);
                        if a != i {
                            assert(self.bindings@[a] == pre[a]);
                        }
                        if b != i {
                            assert(self.bindings@[b] == pre[b]);
                        }
                    }
                    if old(self).buffers_wf() && binding.wf() {
                        assert forall|a: int|
                            0 <= a < self.bindings@.len() implies (
                        #[trigger] self.bindings@[a].1).wf() by {
                            if a != i {
                                assert(self.bindings@[a] == pre[a]);
                            }
                        }
                    }
                }
                return ;
            }
            i = i + 1;
        }
        let ghost pre = self.bindings@;
        self.bindings.push((key, binding));
        proof {
            assert(self.bindings@.drop_last() =~= pre);
            assert(self.table() =~= old(self).table().insert(name@, binding));
            assert forall|a: int, b: int|
                0 <= a < b < self.bindings@.len() implies self.bindings@[a].0@
                != self.bindings@[b].0@ by {
                if b < pre.len() {
                    assert(self.bindings@[a] == pre[a]);
                    assert(self.bindings@[b] == pre[b]);
                } else {
                    assert(self.bindings@[a] == pre[a]);
                    assert(self.bindings@[b].0@ == key@);
                }
            }
            if old(self).buffers_wf() && binding.wf() {
                assert forall|a: int|
                    0 <= a < self.bindings@.len() implies (
                #[trigger] self.bindings@[a].1).wf() by {
                    if a < pre.len() {
                        assert(self.bindings@[a] == pre[a]);
                    }
                }
            }
        }
    }

    /// Builds one bind group per distinct group index of the table, out of
    /// exactly its own bindings (slot by slot, in bound order), and records
    /// one dispatch of an `(x, y, z)` workgroup grid with those groups
    /// bound: the recorder gains exactly that dispatch and nothing else.
    /// A bind-group set the pipeline's layout cannot satisfy, or a grid
    /// over the device's limits, is returned as the device's error.
    ///
    /// Names are unique but two differently named bindings may still
    /// collide on the same `(group, slot)` position; the engine does not
    /// reject that itself — the device reports it as a validation failure,
    /// as it does a declared slot that no binding fills.
    pub fn record_dispatch(&self, encoder: &mut wgpu::CommandEncoder, x: u32, y: u32, z: u32) -> (r:
        Result<(), EngineError>)
        requires
            self.wf(),
        ensures
            r matches Ok(_) ==> encoder_commands(*final(encoder)) == encoder_commands(
                *old(encoder),
            ).push(
                (Command::Dispatch { x, y, z, groups: spec_bind_group_plan(self.bindings@) }),
            ),
    {
        // The group index of each table entry, in table order.
        let mut gs: Vec<u32> = Vec::new();
        let mut i: usize = 0;
        while i < self.bindings.len()
            invariant
                self.wf(),
                i <= self.bindings@.len(),
                gs@.len() == i,
                forall|k: int| 0 <= k < i ==> gs@[k] == self.bindings@[k].1.group,
            decreases self.bindings@.len() - i,
        {
            gs.push(self.bindings[i].1.group);
            i = i + 1;
        }
        proof {
            assert(gs@ =~= spec_group_indices(self.bindings@));
        }

        // One bind group per distinct group index, from exactly the
        // bindings whose group equals it.
        let groups = distinct_groups(&gs);
        let mut bind_groups: Vec<(u32, wgpu::BindGroup)> = Vec::new();
        let mut gi: usize = 0;
        while gi < groups.len()
            invariant
                self.wf(),
                gs@ == spec_group_indices(self.bindings@),
                gs@.len() == self.bindings@.len(),
                groups@ == spec_distinct_groups(gs@),
                gi <= groups@.len(),
                bind_groups@.len() == gi,
                forall|k: int|
                    0 <= k < gi ==> (#[trigger] bind_groups@[k]).0 == groups@[k]
                        && bind_group_entries(bind_groups@[k].1) == spec_group_entries(
                        self.bindings@,
                        groups@[k],
                    ),
            decreases groups@.len() - gi,
        {
            let g = groups[gi];
            let layout = device::get_group_layout(&self.compute_pipeline, g);
            let idxs = positions_of_group(&gs, g);
            let mut slots: Vec<u32> = Vec::new();
            let mut bufs: Vec<&wgpu::Buffer> = Vec::new();
            let mut k: usize = 0;
            while k < idxs.len()
                invariant
                    self.wf(),
                    gs@.len() == self.bindings@.len(),
                    k <= idxs@.len(),
                    slots@.len() == k,
                    bufs@.len() == k,
                    forall|m: int| 0 <= m < idxs@.len() ==> idxs@[m] < self.bindings@.len(),
                    forall|m: int|
                        0 <= m < k ==> slots@[m] == self.bindings@[idxs@[m] as int].1.binding,
                    forall|m: int|
                        0 <= m < k ==> buffer_id(*(#[trigger] bufs@[m])) == buffer_id(
                            self.bindings@[idxs@[m] as int].1.buffer.storage_buffer,
                        ),
                decreases idxs@.len() - k,
            {
                let bi = idxs[k];
                slots.push(self.bindings[bi].1.binding);
                bufs.push(&self.bindings[bi].1.buffer.storage_buffer);
                k = k + 1;
            }
            let bg = match device::make_bind_group(&self.gpu.device, &layout, &slots, &bufs) {
                Ok(bg) => bg,
                Err(e) => {
                    return Err(e);
                },
            };
            proof {
                let positions = spec_positions_of(gs@, g);
                let expected = spec_group_entries(self.bindings@, g);
                let built = Seq::new(slots@.len(), |i: int| (slots@[i], buffer_id(*bufs@[i])));
                assert(idxs@.map_values(|u: usize| u as int) == positions);
                assert forall|m: int| 0 <= m < built.len() implies built[m] == expected[m] by {
                    assert(positions[m] == idxs@.map_values(|u: usize| u as int)[m]);
                    assert(positions[m] == idxs@[m] as int);
                }
                assert(built =~= expected);
                assert(bind_group_entries(bg) == expected);
            }
            bind_groups.push((g, bg));
            gi = gi + 1;
        }
        proof {
            assert(Seq::new(
                bind_groups@.len(),
                |i: int| (bind_groups@[i].0, bind_group_entries(bind_groups@[i].1)),
            ) =~= spec_bind_group_plan(self.bindings@));
        }
        device::record_compute_pass(
            &self.gpu.device,
            encoder,
            &self.compute_pipeline,
            &bind_groups,
            x,
            y,
            z,
        )
    }

    /// Records a full staging copy for every binding flagged `needs_copy`,
    /// in table order: the recorder gains exactly those copies and nothing
    /// else.
    pub fn record_copies(&self, encoder: &mut wgpu::CommandEncoder)
        requires
            self.wf(),
        ensures
            encoder_commands(*final(encoder)) == encoder_commands(*old(encoder)) + spec_copy_plan(
                self.bindings@,
            ),
    {
        let ghost base = encoder_commands(*encoder);
        let mut bi: usize = 0;
        proof {
            assert(self.bindings@.take(0) =~= Seq::<(String, Binding)>::empty());
            assert(base + spec_copy_plan(self.bindings@.take(0)) =~= base);
        }
        while bi < self.bindings.len()
            invariant
                self.wf(),
                bi <= self.bindings@.len(),
                encoder_commands(*encoder) == base + spec_copy_plan(self.bindings@.take(bi as int)),
            decreases self.bindings@.len() - bi,
        {
            proof {
                assert(self.bindings@.take(bi + 1).drop_last() =~= self.bindings@.take(bi as int));
                assert(self.bindings@.take(bi + 1).last() == self.bindings@[bi as int]);
            }
            if self.bindings[bi].1.needs_copy {
                self.bindings[bi].1.buffer.copy_to_buffer(encoder);
                proof {
                    assert(encoder_commands(*encoder) =~= base + spec_copy_plan(
                        self.bindings@.take(bi + 1),
                    ));
                }
            }
            bi = bi + 1;
        }
        proof {
            assert(self.bindings@.take(self.bindings@.len() as int) =~= self.bindings@);
        }
    }

    /// Records one dispatch of an `(x, y, z)` workgroup grid from the
    /// current table (one bind group per distinct group index, holding
    /// exactly its own bindings), then a staging copy for every binding
    /// flagged `needs_copy`, and submits the recorded commands to the
    /// queue, once. A request the device rejects — an unsatisfiable bind
    /// group, a grid over its limits, a deferred recording failure at the
    /// seal — is returned as the error; what a success submitted is exactly
    /// what `record_dispatch` and `record_copies` state of the one command
    /// stream: the dispatch first, then every copy-back, in the queue's
    /// in-order execution.
    ///
    /// The shader itself is left untouched either way: repeating the call
    /// with an unchanged table records the same command sequence again.
    pub fn execute(&mut self, x: u32, y: u32, z: u32) -> (r: Result<(), EngineError>)
        requires
            old(self).wf(),
        ensures
            *final(self) == *old(self),
    {
        let mut encoder = device::create_command_encoder(&self.gpu.device);
        match self.record_dispatch(&mut encoder, x, y, z) {
            Ok(_) => {},
            Err(e) => {
                return Err(e);
            },
        }
        self.record_copies(&mut encoder);
        device::submit_commands(&self.gpu.device, &self.gpu.queue, encoder)
    }
}

/// The group index of each table entry, in table order.
pub open spec fn spec_group_indices(bs: Seq<(String, Binding)>) -> Seq<u32> {
    bs.map_values(|p: (String, Binding)| p.1.group)
}

/// The `(slot, shader-visible buffer identity)` entries of group `g`: one
/// per binding whose group index is `g`, in bound order.
pub open spec fn spec_group_entries(bs: Seq<(String, Binding)>, g: u32) -> Seq<(u32, int)> {
    spec_positions_of(spec_group_indices(bs), g).map_values(
        |i: int| (bs[i].1.binding, buffer_id(bs[i].1.buffer.storage_buffer)),
    )
}

/// The bind groups a dispatch from table `bs` binds: one per distinct group
/// index, in first-occurrence order, each holding exactly its own entries.
pub open spec fn spec_bind_group_plan(bs: Seq<(String, Binding)>) -> Seq<(u32, Seq<(u32, int)>)> {
    spec_distinct_groups(spec_group_indices(bs)).map_values(
        |g: u32| (g, spec_group_entries(bs, g)),
    )
}

/// The staging copies a copy-back from table `bs` records: one full
/// (alignment-padded) copy per `needs_copy` binding, in table order, from
/// the shader-visible buffer to its staging twin.
pub open spec fn spec_copy_plan(bs: Seq<(String, Binding)>) -> Seq<Command>
    decreases bs.len(),
{
    if bs.len() == 0 {
        Seq::empty()
    } else {
        let front = spec_copy_plan(bs.drop_last());
        let b = bs.last().1;
        if b.needs_copy {
            front.push(
                (Command::Copy {
                    src: buffer_id(b.buffer.storage_buffer),
                    dst: buffer_id(b.buffer.staging_buffer),
                    len: spec_align_up(b.buffer.size),
                }),
            )
        } else {
            front
        }
    }
}

/// A copy-back records copies only: in the one submitted stream of a
/// dispatch followed by a copy-back, everything after the dispatch is a
/// copy, so the dispatch happens before every copy the queue executes.
pub proof fn lemma_copy_plan_all_copies(bs: Seq<(String, Binding)>)
    ensures
        forall|i: int|
            0 <= i < spec_copy_plan(bs).len() ==> (#[trigger] spec_copy_plan(bs)[i]) is Copy,
    decreases bs.len(),
{
    if bs.len() > 0 {
        lemma_copy_plan_all_copies(bs.drop_last());
        let front = spec_copy_plan(bs.drop_last());
        assert forall|i: int|
            0 <= i < spec_copy_plan(bs).len() implies (#[trigger] spec_copy_plan(bs)[i]) is Copy by {
            if i < front.len() {
                assert(spec_copy_plan(bs)[i] == front[i]);
            }
        }
    }
}

/// Replacing the entry at a position by a new binding under the same name
/// turns the table's entry for that name over to the new binding and keeps
/// every other name's entry.
proof fn lemma_table_replace(s: Seq<(String, Binding)>, i: int, k: String, b: Binding)
    requires
        0 <= i < s.len(),
        k@ == s[i].0@,
        forall|a: int, c: int| 0 <= a < c < s.len() ==> s[a].0@ != s[c].0@,
    ensures
        spec_table(s.update(i, (k, b))) == spec_table(s).insert(k@, b),
    decreases s.len(),
{
    let t = s.update(i, (k, b));
    if i == s.len() - 1 {
        assert(t.drop_last() =~= s.drop_last());
        assert(t.last() == (k, b));
        assert(spec_table(t) =~= spec_table(s).insert(k@, b));
    } else {
        assert(t.drop_last() =~= s.drop_last().update(i, (k, b)));
        assert(s.drop_last()[i] == s[i]);
        lemma_table_replace(s.drop_last(), i, k, b);
        assert(t.last() == s.last());
        // The last entry's name differs from the replaced one, so the two
        // inserts commute.
        assert(s[i].0@ != s.last().0@);
        assert(spec_table(t) =~= spec_table(s).insert(k@, b));
    }
}

/// A shader for this context: compiles `src` with the given entry point.
impl Gpu {
    /// Creates a shader owned by this context; ill-formed source or an
    /// unknown entry point is returned as the device's validation error.
    pub fn create_shader(self: &Rc<Gpu>, src: &str, entry_point: &str) -> (r: Result<
        Shader,
        EngineError,
    >)
        ensures
            r matches Ok(s) ==> {
                &&& s.wf()
                &&& s.table() == Map::<Seq<char>, Binding>::empty()
                &&& s.gpu == *self
                &&& s.bindings@.len() == 0
            },
    {
        Shader::new(share_gpu(self), src, entry_point)
    }
}

} // verus!
