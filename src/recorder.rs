use vstd::prelude::*;

use crate::render::RenderPlan;
use crate::scene::{Scene, SceneItem};

verus! {

/// Width of the indices in an index buffer.
#[derive(Clone, Copy, Debug, PartialEq, Eq, Structural)]
pub enum IndexType {
    Uint16,
    Uint32,
}

/// One command recorded into a command buffer.
#[derive(Clone, Copy, Debug, PartialEq, Eq, Structural)]
pub enum Command {
    BeginRenderPass { framebuffer: usize },
    BindGraphicsPipeline,
    BindVertexBuffer { buffer: u64, offset: u32 },
    BindIndexBuffer { buffer: u64, offset: u64, index_type: IndexType },
    BindResources { uniform_buffer: u64 },
    DrawIndexed {
        index_count: u32,
        instance_count: u32,
        first_index: u32,
        vertex_offset: i32,
        first_instance: u32,
    },
    EndRenderPass,
}

/// The commands that draw `item` into framebuffer `fb`, with its vertices
/// bound at `vertex_offset`.
pub open spec fn item_commands(fb: usize, item: SceneItem, vertex_offset: u32) -> Seq<Command> {
    seq![
        Command::BeginRenderPass { framebuffer: fb },
        Command::BindGraphicsPipeline,
        Command::BindVertexBuffer { buffer: item.vertex_buffer, offset: vertex_offset },
        Command::BindIndexBuffer {
            buffer: item.index_buffer,
            offset: 0,
            index_type: IndexType::Uint32,
        },
        Command::BindResources { uniform_buffer: item.uniform_buffer },
        Command::DrawIndexed {
            index_count: item.index_count,
            instance_count: 1,
            first_index: 0,
            vertex_offset: 0,
            first_instance: 0,
        },
        Command::EndRenderPass,
    ]
}

/// `rec` holds, for each of `m` framebuffers in order, one command buffer
/// per item of `items` in order.
pub open spec fn recording_model(
    m: nat,
    items: Seq<SceneItem>,
    vertex_offset: u32,
    rec: Seq<Vec<Vec<Command>>>,
) -> bool {
    &&& rec.len() == m
    &&& forall|f: int| 0 <= f < m ==> (#[trigger] rec[f])@.len() == items.len()
    &&& forall|f: int, i: int|
        0 <= f < m && 0 <= i < items.len() ==> (#[trigger] rec[f]@[i])@ == item_commands(
            f as usize,
            items[i],
            vertex_offset,
        )
}

/// The number of command buffers in all groups together.
pub open spec fn total_buffers<T>(groups: Seq<Vec<T>>) -> nat
    decreases groups.len(),
{
    if groups.len() == 0 {
        0
    } else {
        total_buffers(groups.drop_last()) + groups.last()@.len()
    }
}

/// The buffer opens exactly one render pass, first, and closes it, last.
pub open spec fn one_render_pass(cmds: Seq<Command>) -> bool {
    &&& cmds.len() >= 2
    &&& cmds[0] is BeginRenderPass
    &&& cmds.last() is EndRenderPass
    &&& forall|k: int|
        0 < k < cmds.len() ==> !(#[trigger] cmds[k] is BeginRenderPass)
    &&& forall|k: int|
        0 <= k < cmds.len() - 1 ==> !(#[trigger] cmds[k] is EndRenderPass)
}

/// Records the commands that draw `item` into framebuffer `fb`.
pub fn record_item(fb: usize, item: &SceneItem, vertex_offset: u32) -> (r: Vec<Command>)
    ensures
        r@ == item_commands(fb, *item, vertex_offset),
{
    let mut r: Vec<Command> = Vec::new();
    r.push(Command::BeginRenderPass { framebuffer: fb });
    r.push(Command::BindGraphicsPipeline);
    r.push(Command::BindVertexBuffer { buffer: item.vertex_buffer, offset: vertex_offset });
    r.push(
        Command::BindIndexBuffer {
            buffer: item.index_buffer,
            offset: 0,
            index_type: IndexType::Uint32,
        },
    );
    r.push(Command::BindResources { uniform_buffer: item.uniform_buffer });
    r.push(
        Command::DrawIndexed {
            index_count: item.index_count,
            instance_count: 1,
            first_index: 0,
            vertex_offset: 0,
            first_instance: 0,
        },
    );
    r.push(Command::EndRenderPass);
    assert(r@ =~= item_commands(fb, *item, vertex_offset));
    r
}

/// Records a frame: for every framebuffer of the plan, and for every item of
/// the scene in order, one command buffer that draws the item, its vertices
/// bound at the pipeline's declared attribute offset.
pub fn write_cmds(plan: &RenderPlan, scene: &Scene) -> (r: Vec<Vec<Vec<Command>>>)
    requires
        plan.wf(),
    ensures
        recording_model(plan.frames@.len(), scene@, plan.pipeline.vertex_inputs@[0].offset, r@),
{
    let offset = plan.pipeline.vertex_inputs[0].offset;
    let items = scene.items();
    let m = plan.frames.len();
    let mut r: Vec<Vec<Vec<Command>>> = Vec::new();
    let mut f: usize = 0;
    while f < m
        invariant
            f <= m,
            m == plan.frames@.len(),
            items@ == scene@,
            recording_model(f as nat, scene@, offset, r@),
        decreases m - f,
    {
        let mut group: Vec<Vec<Command>> = Vec::new();
        let mut i: usize = 0;
        while i < items.len()
            invariant
                i <= items@.len(),
                items@ == scene@,
                group@.len() == i,
                forall|k: int|
                    0 <= k < i ==> (#[trigger] group@[k])@ == item_commands(
                        f,
                        scene@[k],
                        offset,
                    ),
            decreases items@.len() - i,
        {
            group.push(record_item(f, &items[i], offset));
            i = i + 1;
        }
        r.push(group);
        f = f + 1;
    }
    r
}

/// Every recorded buffer opens and closes exactly one render pass.
pub proof fn lemma_item_one_render_pass(fb: usize, item: SceneItem, vertex_offset: u32)
    ensures
        one_render_pass(item_commands(fb, item, vertex_offset)),
{
    let c = item_commands(fb, item, vertex_offset);
    assert forall|k: int| 0 < k < c.len() implies !(#[trigger] c[k] is BeginRenderPass) by {}
    assert forall|k: int| 0 <= k < c.len() - 1 implies !(#[trigger] c[k] is EndRenderPass) by {}
}

/// Groups of `n` buffers each, `m` of them, hold `m * n` buffers.
pub proof fn lemma_total_buffers<T>(groups: Seq<Vec<T>>, n: nat)
    requires
        forall|f: int| 0 <= f < groups.len() ==> (#[trigger] groups[f])@.len() == n,
    ensures
        total_buffers(groups) == groups.len() * n,
    decreases groups.len(),
{
    if groups.len() > 0 {
        let g = groups.drop_last();
        assert forall|f: int| 0 <= f < g.len() implies (#[trigger] g[f])@.len() == n by {
            assert(g[f] == groups[f]);
        }
        lemma_total_buffers(g, n);
        let m = groups.len() as int;
        assert((m - 1) * n + n == m * n) by (nonlinear_arith);
    }
}

/// Recording a scene of `N` items against `M` framebuffers gives `N` command
/// buffers per framebuffer, `M * N` in all, each opening and closing exactly
/// one render pass.
pub proof fn lemma_recording_counts(
    m: nat,
    items: Seq<SceneItem>,
    vertex_offset: u32,
    rec: Seq<Vec<Vec<Command>>>,
)
    requires
        recording_model(m, items, vertex_offset, rec),
    ensures
        rec.len() == m,
        forall|f: int| 0 <= f < m ==> (#[trigger] rec[f])@.len() == items.len(),
        total_buffers(rec) == m * items.len(),
        forall|f: int, i: int|
            0 <= f < m && 0 <= i < items.len() ==> one_render_pass((#[trigger] rec[f]@[i])@),
{
    lemma_total_buffers(rec, items.len());
    assert forall|f: int, i: int| 0 <= f < m && 0 <= i < items.len() implies one_render_pass(
        (#[trigger] rec[f]@[i])@,
    ) by {
        lemma_item_one_render_pass(f as usize, items[i], vertex_offset);
    }
}

/// Recording an empty scene gives no command buffer at all.
pub proof fn lemma_empty_scene(m: nat, vertex_offset: u32, rec: Seq<Vec<Vec<Command>>>)
    requires
        recording_model(m, Seq::<SceneItem>::empty(), vertex_offset, rec),
    ensures
        total_buffers(rec) == 0,
        forall|f: int| 0 <= f < m ==> (#[trigger] rec[f])@.len() == 0,
{
    lemma_total_buffers(rec, 0);
}

/// The command buffers recorded so far, one group per recording of a
/// framebuffer. Recording again appends; nothing is cleared.
pub struct FrameTable<T> {
    groups: Vec<Vec<T>>,
}

impl<T> View for FrameTable<T> {
    type V = Seq<Vec<T>>;

    closed spec fn view(&self) -> Seq<Vec<T>> {
        self.groups@
    }
}

impl<T> FrameTable<T> {
    /// A table with one empty group per framebuffer.
    pub fn new(frame_count: usize) -> (r: FrameTable<T>)
        ensures
            r@.len() == frame_count,
            forall|f: int| 0 <= f < frame_count ==> (#[trigger] r@[f])@.len() == 0,
    {
        let mut groups: Vec<Vec<T>> = Vec::new();
        let mut i: usize = 0;
        while i < frame_count
            invariant
                i <= frame_count,
                groups@.len() == i,
                forall|f: int| 0 <= f < i ==> (#[trigger] groups@[f])@.len() == 0,
            decreases frame_count - i,
        {
            groups.push(Vec::new());
            i = i + 1;
        }
        FrameTable { groups }
    }

    /// Appends the groups of one recording after those already held.
    pub fn append(&mut self, recorded: Vec<Vec<T>>)
        ensures
            final(self)@ == old(self)@ + recorded@,
    {
        let mut recorded = recorded;
        self.groups.append(&mut recorded);
    }

    /// The number of groups held.
    pub fn len(&self) -> (r: usize)
        ensures
            r == self@.len(),
    {
        self.groups.len()
    }

    /// The groups held, oldest first.
    pub fn groups(&self) -> (r: &Vec<Vec<T>>)
        ensures
            r@ == self@,
    {
        &self.groups
    }
}

} // verus!
