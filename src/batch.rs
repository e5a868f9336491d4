//! Batching of the GUI's clipped primitives into one vertex buffer, one index
//! buffer and a list of draw commands per render target.
use crate::rect::PixelRect;
use crate::textures::EguiTextureId;
use vstd::prelude::*;

verus! {

/// Size in bytes of one GUI vertex: position and texture coordinates as two
/// pairs of 32-bit floats, and a color of four bytes.
pub const VERTEX_SIZE: usize = 20;

/// A triangle mesh of the GUI, its vertices already laid out as bytes.
pub struct MeshInput {
    pub vertex_bytes: Vec<u8>,
    pub indices: Vec<u32>,
    pub texture_id: egui::TextureId,
}

/// What a clipped primitive draws.
pub enum PrimitiveInput {
    /// Triangles of the GUI itself.
    Mesh(MeshInput),
    /// A paint callback of the host, run inside the clip rectangle.
    PaintCallback,
}

/// One primitive of the GUI's output, with its clip rectangle in physical pixels.
pub struct ClippedPrimitiveInput {
    pub clip_rect: PixelRect,
    pub primitive: PrimitiveInput,
}

/// What a draw command draws.
#[derive(Debug, Clone, Copy, PartialEq, Eq, Structural)]
pub enum DrawPrimitive {
    /// `vertices_count` indices of the batched index data, after those of the
    /// commands before, with the given texture.
    Egui { vertices_count: usize, egui_texture: EguiTextureId },
    /// The paint callback of the primitive at position `source` of the GUI's output.
    PaintCallback { source: usize },
}

/// One draw of a render pass, clipped to `clip_rect`.
#[derive(Debug, Clone, Copy, PartialEq, Eq, Structural)]
pub struct DrawCommand {
    pub clip_rect: PixelRect,
    pub primitive: DrawPrimitive,
}

/// Number of vertices of a mesh.
pub open spec fn mesh_vertex_count(m: MeshInput) -> int {
    (m.vertex_bytes@.len() as int) / (VERTEX_SIZE as int)
}

/// A mesh whose bytes hold whole vertices.
pub open spec fn mesh_wf(m: MeshInput) -> bool {
    (m.vertex_bytes@.len() as int) % (VERTEX_SIZE as int) == 0
}

/// A mesh whose indices all name one of its vertices, as the GUI's
/// tessellator makes them.
pub open spec fn mesh_indices_valid(m: MeshInput) -> bool {
    forall|k: int| 0 <= k < m.indices@.len() ==> (#[trigger] m.indices@[k]) < mesh_vertex_count(m)
}

/// Every mesh of the output is well formed.
pub open spec fn primitives_wf(prims: Seq<ClippedPrimitiveInput>) -> bool {
    forall|i: int| 0 <= i < prims.len() && (#[trigger] prims[i]).primitive is Mesh
        ==> mesh_wf(prims[i].primitive->Mesh_0)
}

/// Whether a clip rectangle overlaps the part of the render target drawn to.
pub open spec fn on_target(clip: PixelRect, target: PixelRect) -> bool {
    !clip.overlap(target).empty()
}

/// Whether the `i`-th primitive is a mesh that is drawn.
pub open spec fn drawn_mesh(prims: Seq<ClippedPrimitiveInput>, i: int, target: PixelRect) -> bool {
    on_target(prims[i].clip_rect, target) && prims[i].primitive is Mesh
}

/// Vertex bytes of the meshes among the first `n` primitives that are drawn, in order.
pub open spec fn batched_vertices(prims: Seq<ClippedPrimitiveInput>, n: int, target: PixelRect) -> Seq<u8>
    decreases n,
{
    if n <= 0 {
        Seq::empty()
    } else if drawn_mesh(prims, n - 1, target) {
        batched_vertices(prims, n - 1, target) + prims[n - 1].primitive->Mesh_0.vertex_bytes@
    } else {
        batched_vertices(prims, n - 1, target)
    }
}

/// Number of vertices of the meshes among the first `n` primitives that are drawn.
pub open spec fn batched_vertex_count(prims: Seq<ClippedPrimitiveInput>, n: int, target: PixelRect) -> int
    decreases n,
{
    if n <= 0 {
        0
    } else if drawn_mesh(prims, n - 1, target) {
        batched_vertex_count(prims, n - 1, target) + mesh_vertex_count(prims[n - 1].primitive->Mesh_0)
    } else {
        batched_vertex_count(prims, n - 1, target)
    }
}

/// A mesh's indices, shifted past the vertices batched before it.
pub open spec fn shifted(indices: Seq<u32>, offset: int) -> Seq<u32> {
    indices.map_values(|k: u32| (k + offset) as u32)
}

/// Indices of the drawn meshes among the first `n` primitives, each shifted by
/// the number of vertices batched before its mesh.
pub open spec fn batched_indices(prims: Seq<ClippedPrimitiveInput>, n: int, target: PixelRect) -> Seq<u32>
    decreases n,
{
    if n <= 0 {
        Seq::empty()
    } else if drawn_mesh(prims, n - 1, target) {
        batched_indices(prims, n - 1, target) + shifted(
            prims[n - 1].primitive->Mesh_0.indices@,
            batched_vertex_count(prims, n - 1, target),
        )
    } else {
        batched_indices(prims, n - 1, target)
    }
}

/// The draw command of the `i`-th primitive.
pub open spec fn command_of(prims: Seq<ClippedPrimitiveInput>, i: int, entity: u64) -> DrawCommand {
    DrawCommand {
        clip_rect: prims[i].clip_rect,
        primitive: match prims[i].primitive {
            PrimitiveInput::Mesh(m) => DrawPrimitive::Egui {
                vertices_count: m.indices@.len() as usize,
                egui_texture: EguiTextureId::of(entity, m.texture_id),
            },
            PrimitiveInput::PaintCallback => DrawPrimitive::PaintCallback { source: i as usize },
        },
    }
}

/// Draw commands of the first `n` primitives that overlap the target, in order.
pub open spec fn batched_commands(
    prims: Seq<ClippedPrimitiveInput>,
    n: int,
    entity: u64,
    target: PixelRect,
) -> Seq<DrawCommand>
    decreases n,
{
    if n <= 0 {
        Seq::empty()
    } else if on_target(prims[n - 1].clip_rect, target) {
        batched_commands(prims, n - 1, entity, target).push(command_of(prims, n - 1, entity))
    } else {
        batched_commands(prims, n - 1, entity, target)
    }
}

/// Positions of the paint callbacks among the first `n` primitives that overlap the target.
pub open spec fn batched_callbacks(prims: Seq<ClippedPrimitiveInput>, n: int, target: PixelRect) -> Seq<usize>
    decreases n,
{
    if n <= 0 {
        Seq::empty()
    } else if on_target(prims[n - 1].clip_rect, target) && prims[n - 1].primitive is PaintCallback {
        batched_callbacks(prims, n - 1, target).push((n - 1) as usize)
    } else {
        batched_callbacks(prims, n - 1, target)
    }
}

proof fn lemma_batched_sizes(prims: Seq<ClippedPrimitiveInput>, n: int, target: PixelRect)
    requires
        primitives_wf(prims),
        n <= prims.len(),
    ensures
        batched_vertices(prims, n, target).len() == VERTEX_SIZE * batched_vertex_count(prims, n, target),
        0 <= batched_vertex_count(prims, n, target),
    decreases n,
{
    if n > 0 {
        lemma_batched_sizes(prims, n - 1, target);
        if drawn_mesh(prims, n - 1, target) {
            assert(mesh_wf(prims[n - 1].primitive->Mesh_0));
        }
    }
}

/// Every batched index names one of the batched vertices, so that drawing
/// never reads past the vertex buffer.
pub proof fn lemma_indices_in_bounds(prims: Seq<ClippedPrimitiveInput>, n: int, target: PixelRect)
    requires
        primitives_wf(prims),
        forall|i: int| 0 <= i < prims.len() && (#[trigger] prims[i]).primitive is Mesh
            ==> mesh_indices_valid(prims[i].primitive->Mesh_0),
        0 <= n <= prims.len(),
        batched_vertex_count(prims, n, target) <= u32::MAX,
    ensures
        forall|k: int| 0 <= k < batched_indices(prims, n, target).len()
            ==> #[trigger] batched_indices(prims, n, target)[k] < batched_vertex_count(prims, n, target),
    decreases n,
{
    if n > 0 {
        lemma_prefix_monotone(prims, n - 1, n, target);
        lemma_indices_in_bounds(prims, n - 1, target);
        if drawn_mesh(prims, n - 1, target) {
            let m = prims[n - 1].primitive->Mesh_0;
            assert(mesh_wf(m) && mesh_indices_valid(m));
            let before = batched_indices(prims, n - 1, target);
            let offset = batched_vertex_count(prims, n - 1, target);
            let added = shifted(m.indices@, offset);
            assert(batched_indices(prims, n, target) == before + added);
            assert(added.len() == m.indices@.len());
            lemma_batched_sizes(prims, n - 1, target);
            assert(0 <= offset);
            assert(batched_vertex_count(prims, n, target) == offset + mesh_vertex_count(m));
            assert forall|k: int| 0 <= k < batched_indices(prims, n, target).len() implies #[trigger] batched_indices(
                prims,
                n,
                target,
            )[k] < batched_vertex_count(prims, n, target) by {
                if k >= before.len() {
                    let j = k - before.len();
                    assert(m.indices@[j] < mesh_vertex_count(m));
                    assert(m.indices@[j] + offset <= u32::MAX);
                    assert(added[j] == (m.indices@[j] + offset) as u32);
                    assert((before + added)[k] == added[j]);
                } else {
                    assert((before + added)[k] == before[k]);
                }
            }
        }
    }
}

/// Batching more primitives never shrinks the vertex count, the vertex data
/// or the index data.
pub proof fn lemma_prefix_monotone(prims: Seq<ClippedPrimitiveInput>, m: int, n: int, target: PixelRect)
    requires
        0 <= m <= n <= prims.len(),
    ensures
        batched_vertex_count(prims, m, target) <= batched_vertex_count(prims, n, target),
        batched_vertices(prims, m, target).len() <= batched_vertices(prims, n, target).len(),
        batched_indices(prims, m, target).len() <= batched_indices(prims, n, target).len(),
    decreases n - m,
{
    if m < n {
        lemma_prefix_monotone(prims, m, n - 1, target);
    }
}

/// Whether `x` is a power of two.
pub open spec fn is_power_of_two(x: int) -> bool
    decreases x,
{
    if x <= 1 {
        x == 1
    } else {
        x % 2 == 0 && is_power_of_two(x / 2)
    }
}

/// `r` is the smallest power of two that is at least `n`.
pub open spec fn is_pow2_ceil(r: int, n: int) -> bool {
    is_power_of_two(r) && r >= n && (r == 1 || r / 2 < n)
}

/// The capacity of a GPU buffer after `needed` bytes were asked of one of
/// capacity `cap`: kept while large enough, else the smallest power of two
/// that holds them.
pub open spec fn grown(cap: usize, needed: int, new_cap: usize) -> bool {
    if needed > cap {
        is_pow2_ceil(new_cap as int, needed)
    } else {
        new_cap == cap
    }
}

/// The smallest power of two that is at least `n` (1 for 0).
pub fn next_power_of_two(n: usize) -> (r: usize)
    requires
        n <= usize::MAX / 2 + 1,
    ensures
        is_pow2_ceil(r as int, n as int),
{
    let mut p: usize = 1;
    while p < n
        invariant
            n <= usize::MAX / 2 + 1,
            p >= 1,
            is_power_of_two(p as int),
            p == 1 || p / 2 < n,
        decreases usize::MAX - p,
    {
        assert((p * 2) as int / 2 == p);
        p = p * 2;
    }
    p
}

/// New capacities of the GPU buffers of a render target: `Some` where the
/// data outgrew the old buffer and a new one is needed.
#[derive(Debug, Clone, Copy, PartialEq, Eq, Structural)]
pub struct BufferGrowth {
    pub vertex_buffer_capacity: Option<usize>,
    pub index_buffer_capacity: Option<usize>,
}

/// The batched draw data of one render target, kept from frame to frame.
pub struct EguiRenderTargetData {
    /// Whether the target was seen this frame.
    pub keep: bool,
    pub vertex_data: Vec<u8>,
    pub vertex_buffer_capacity: usize,
    pub index_data: Vec<u32>,
    pub index_buffer_capacity: usize,
    pub draw_commands: Vec<DrawCommand>,
    /// Positions of the paint callbacks to update before the pass, in order.
    pub postponed_updates: Vec<usize>,
}

/// Every index of the drawn meshes among the first `n`, shifted past the
/// vertices batched before its mesh, fits 32 bits.
pub open spec fn indices_fit(prims: Seq<ClippedPrimitiveInput>, n: int, target: PixelRect) -> bool {
    forall|i: int, k: int|
        0 <= i < n && drawn_mesh(prims, i, target) && 0 <= k < prims[i].primitive->Mesh_0.indices@.len()
            ==> #[trigger] prims[i].primitive->Mesh_0.indices@[k] + batched_vertex_count(prims, i, target) <= u32::MAX
}

/// The whole batch fits the index type and the address space.
pub open spec fn batch_fits(prims: Seq<ClippedPrimitiveInput>, target: PixelRect) -> bool {
    &&& indices_fit(prims, prims.len() as int, target)
    &&& batched_vertex_count(prims, prims.len() as int, target) <= u32::MAX
    &&& batched_vertices(prims, prims.len() as int, target).len() <= usize::MAX / 2 + 1
    &&& 4 * batched_indices(prims, prims.len() as int, target).len() <= usize::MAX / 2 + 1
}

/// Largest size in bytes of the batched vertex or index data.
pub const MAX_BATCH_BYTES: usize = usize::MAX / 2 + 1;

/// Whether the primitives can be batched for the pixels `target` of a render
/// target: every mesh is well formed and the batch fits.
pub fn primitives_fit(primitives: &Vec<ClippedPrimitiveInput>, target: PixelRect) -> (r: bool)
    ensures
        r == (primitives_wf(primitives@) && batch_fits(primitives@, target)),
{
    let ghost prims = primitives@;
    let mut count: u64 = 0;
    let mut bytes: usize = 0;
    let mut indices: usize = 0;
    let mut i: usize = 0;
    while i < primitives.len()
        invariant
            prims == primitives@,
            i <= prims.len(),
            forall|k: int| 0 <= k < i && (#[trigger] prims[k]).primitive is Mesh ==> mesh_wf(prims[k].primitive->Mesh_0),
            indices_fit(prims, i as int, target),
            count == batched_vertex_count(prims, i as int, target),
            bytes == batched_vertices(prims, i as int, target).len(),
            indices == batched_indices(prims, i as int, target).len(),
            count <= u32::MAX,
            bytes <= MAX_BATCH_BYTES,
            4 * indices <= MAX_BATCH_BYTES,
        decreases prims.len() - i,
    {
        proof {
            lemma_prefix_monotone(prims, i as int + 1, prims.len() as int, target);
        }
        let prim = &primitives[i];
        match &prim.primitive {
            PrimitiveInput::Mesh(m) => {
                let vertex_count = m.vertex_bytes.len() / VERTEX_SIZE;
                if m.vertex_bytes.len() % VERTEX_SIZE != 0 {
                    assert(!primitives_wf(prims) && prims[i as int].primitive is Mesh);
                    return false;
                }
                if !prim.clip_rect.intersect(target).is_empty() {
                    if vertex_count as u64 > u32::MAX as u64 - count || m.vertex_bytes.len() > MAX_BATCH_BYTES - bytes
                        || m.indices.len() > MAX_BATCH_BYTES / 4 - indices {
                        return false;
                    }
                    let mut k: usize = 0;
                    while k < m.indices.len()
                        invariant
                            prims == primitives@,
                            i < prims.len(),
                            prims[i as int].primitive == PrimitiveInput::Mesh(*m),
                            drawn_mesh(prims, i as int, target),
                            count == batched_vertex_count(prims, i as int, target),
                            count <= u32::MAX,
                            k <= m.indices@.len(),
                            forall|q: int| 0 <= q < k ==> #[trigger] m.indices@[q] + count <= u32::MAX,
                        decreases m.indices@.len() - k,
                    {
                        if m.indices[k] as u64 > u32::MAX as u64 - count {
                            assert(prims[i as int].primitive->Mesh_0.indices@[k as int] + batched_vertex_count(
                                prims,
                                i as int,
                                target,
                            ) > u32::MAX);
                            return false;
                        }
                        k = k + 1;
                    }
                    assert forall|a: int, q: int|
                        0 <= a < i + 1 && drawn_mesh(prims, a, target) && 0 <= q
                            < prims[a].primitive->Mesh_0.indices@.len() implies #[trigger] prims[a].primitive->Mesh_0.indices@[q]
                        + batched_vertex_count(prims, a, target) <= u32::MAX by {
                        if a == i {
                            assert(prims[a].primitive->Mesh_0.indices@[q] == m.indices@[q]);
                        }
                    }
                    count = count + vertex_count as u64;
                    bytes = bytes + m.vertex_bytes.len();
                    indices = indices + m.indices.len();
                }
            },
            PrimitiveInput::PaintCallback => {},
        }
        i = i + 1;
    }
    true
}

impl EguiRenderTargetData {
    /// No data and no buffers yet.
    pub fn new() -> (r: EguiRenderTargetData)
        ensures
            !r.keep,
            r.vertex_data@.len() == 0,
            r.vertex_buffer_capacity == 0,
            r.index_data@.len() == 0,
            r.index_buffer_capacity == 0,
            r.draw_commands@.len() == 0,
            r.postponed_updates@.len() == 0,
    {
        EguiRenderTargetData {
            keep: false,
            vertex_data: Vec::new(),
            vertex_buffer_capacity: 0,
            index_data: Vec::new(),
            index_buffer_capacity: 0,
            draw_commands: Vec::new(),
            postponed_updates: Vec::new(),
        }
    }

    /// Batches a frame's primitives for the pixels `target` of a render
    /// target owned by `entity` (the whole window or image, or a camera's
    /// viewport in it), and marks the target as seen.
    ///
    /// Primitives whose clip rectangle misses `target` are dropped; the
    /// vertices of the meshes are concatenated, and their indices shifted past
    /// the vertices before them. A target that the host reports as having no
    /// size (`has_size` false) keeps its data from before.
    pub fn prepare(
        &mut self,
        entity: u64,
        target: PixelRect,
        has_size: bool,
        primitives: &Vec<ClippedPrimitiveInput>,
    ) -> (r: BufferGrowth)
        requires
            primitives_wf(primitives@),
            batch_fits(primitives@, target),
        ensures
            final(self).keep,
            !has_size ==> {
                &&& r == (BufferGrowth { vertex_buffer_capacity: None, index_buffer_capacity: None })
                &&& final(self).vertex_data@ == old(self).vertex_data@
                &&& final(self).index_data@ == old(self).index_data@
                &&& final(self).draw_commands@ == old(self).draw_commands@
                &&& final(self).postponed_updates@ == old(self).postponed_updates@
                &&& final(self).vertex_buffer_capacity == old(self).vertex_buffer_capacity
                &&& final(self).index_buffer_capacity == old(self).index_buffer_capacity
            },
            has_size ==> {
                let n = primitives@.len() as int;
                &&& final(self).vertex_data@ == batched_vertices(primitives@, n, target)
                &&& final(self).index_data@ == batched_indices(primitives@, n, target)
                &&& final(self).draw_commands@ == batched_commands(primitives@, n, entity, target)
                &&& final(self).postponed_updates@ == batched_callbacks(primitives@, n, target)
                &&& grown(old(self).vertex_buffer_capacity, final(self).vertex_data@.len() as int,
                    final(self).vertex_buffer_capacity)
                &&& grown(old(self).index_buffer_capacity, 4 * (final(self).index_data@.len() as int),
                    final(self).index_buffer_capacity)
                &&& r.vertex_buffer_capacity == if final(self).vertex_data@.len() > old(self).vertex_buffer_capacity {
                    Some(final(self).vertex_buffer_capacity)
                } else {
                    None::<usize>
                }
                &&& r.index_buffer_capacity == if 4 * final(self).index_data@.len() > old(self).index_buffer_capacity {
                    Some(final(self).index_buffer_capacity)
                } else {
                    None::<usize>
                }
            },
    {
        self.keep = true;
        if !has_size {
            return BufferGrowth { vertex_buffer_capacity: None, index_buffer_capacity: None };
        }
        self.draw_commands.clear();
        self.vertex_data.clear();
        self.index_data.clear();
        self.postponed_updates.clear();
            let ghost prims = primitives@;
        let mut index_offset: u32 = 0;
        let mut i: usize = 0;
        while i < primitives.len()
            invariant
                prims == primitives@,
                primitives_wf(prims),
                batch_fits(prims, target),
                i <= prims.len(),
                self.keep,
                self.vertex_data@ == batched_vertices(prims, i as int, target),
                self.index_data@ == batched_indices(prims, i as int, target),
                self.draw_commands@ == batched_commands(prims, i as int, entity, target),
                self.postponed_updates@ == batched_callbacks(prims, i as int, target),
                index_offset == batched_vertex_count(prims, i as int, target),
                self.vertex_buffer_capacity == old(self).vertex_buffer_capacity,
                self.index_buffer_capacity == old(self).index_buffer_capacity,
            decreases prims.len() - i,
        {
            let prim = &primitives[i];
            proof {
                lemma_prefix_monotone(prims, i as int + 1, prims.len() as int, target);
                lemma_batched_sizes(prims, i as int + 1, target);
                lemma_batched_sizes(prims, i as int, target);
            }
            if !prim.clip_rect.intersect(target).is_empty() {
                match &prim.primitive {
                    PrimitiveInput::Mesh(m) => {
                        assert(mesh_wf(*m));
                        let ghost before = self.vertex_data@;
                        let mut b: usize = 0;
                        while b < m.vertex_bytes.len()
                            invariant
                                b <= m.vertex_bytes@.len(),
                                self.vertex_data@ == before + m.vertex_bytes@.take(b as int),
                                self.index_data@ == batched_indices(prims, i as int, target),
                                self.draw_commands@ == batched_commands(prims, i as int, entity, target),
                                self.postponed_updates@ == batched_callbacks(prims, i as int, target),
                                self.keep,
                                self.vertex_buffer_capacity == old(self).vertex_buffer_capacity,
                                self.index_buffer_capacity == old(self).index_buffer_capacity,
                            decreases m.vertex_bytes@.len() - b,
                        {
                            self.vertex_data.push(m.vertex_bytes[b]);
                            b = b + 1;
                            assert(m.vertex_bytes@.take(b as int) =~= m.vertex_bytes@.take(b - 1).push(
                                m.vertex_bytes@[b - 1],
                            ));
                        }
                        assert(m.vertex_bytes@.take(b as int) =~= m.vertex_bytes@);
                        let ghost before_idx = self.index_data@;
                        assert forall|q: int| 0 <= q < m.indices@.len() implies #[trigger] m.indices@[q] + index_offset
                            <= u32::MAX by {
                            assert(prims[i as int].primitive->Mesh_0.indices@[q] == m.indices@[q]);
                        }
                        let mut k: usize = 0;
                        while k < m.indices.len()
                            invariant
                                mesh_wf(*m),
                                k <= m.indices@.len(),
                                forall|q: int| 0 <= q < m.indices@.len() ==> #[trigger] m.indices@[q] + index_offset <= u32::MAX,
                                self.index_data@ == before_idx + shifted(m.indices@.take(k as int), index_offset as int),
                                self.vertex_data@ == before + m.vertex_bytes@,
                                self.draw_commands@ == batched_commands(prims, i as int, entity, target),
                                self.postponed_updates@ == batched_callbacks(prims, i as int, target),
                                self.keep,
                                self.vertex_buffer_capacity == old(self).vertex_buffer_capacity,
                                self.index_buffer_capacity == old(self).index_buffer_capacity,
                            decreases m.indices@.len() - k,
                        {
                            self.index_data.push(m.indices[k] + index_offset);
                            k = k + 1;
                            assert(shifted(m.indices@.take(k as int), index_offset as int) =~= shifted(
                                m.indices@.take(k - 1),
                                index_offset as int,
                            ).push((m.indices@[k - 1] + index_offset) as u32));
                        }
                        assert(m.indices@.take(k as int) =~= m.indices@);
                        index_offset = index_offset + (m.vertex_bytes.len() / VERTEX_SIZE) as u32;
                        self.draw_commands.push(
                            DrawCommand {
                                clip_rect: prim.clip_rect,
                                primitive: DrawPrimitive::Egui {
                                    vertices_count: m.indices.len(),
                                    egui_texture: EguiTextureId::from_egui(entity, m.texture_id),
                                },
                            },
                        );
                    },
                    PrimitiveInput::PaintCallback => {
                        self.postponed_updates.push(i);
                        self.draw_commands.push(
                            DrawCommand { clip_rect: prim.clip_rect, primitive: DrawPrimitive::PaintCallback { source: i } },
                        );
                    },
                }
            }
            i = i + 1;
        }
        let mut growth = BufferGrowth { vertex_buffer_capacity: None, index_buffer_capacity: None };
        if self.vertex_data.len() > self.vertex_buffer_capacity {
            self.vertex_buffer_capacity = next_power_of_two(self.vertex_data.len());
            growth.vertex_buffer_capacity = Some(self.vertex_buffer_capacity);
        }
        let index_data_size = self.index_data.len() * 4;
        if index_data_size > self.index_buffer_capacity {
            self.index_buffer_capacity = next_power_of_two(index_data_size);
            growth.index_buffer_capacity = Some(self.index_buffer_capacity);
        }
        growth
    }
}

/// A target's data as it stands after a frame boundary: the same, but not yet seen.
pub open spec fn unseen(d: EguiRenderTargetData) -> EguiRenderTargetData {
    EguiRenderTargetData {
        keep: false,
        vertex_data: d.vertex_data,
        vertex_buffer_capacity: d.vertex_buffer_capacity,
        index_data: d.index_data,
        index_buffer_capacity: d.index_buffer_capacity,
        draw_commands: d.draw_commands,
        postponed_updates: d.postponed_updates,
    }
}

/// The targets that were seen, in order, each marked as not yet seen.
pub open spec fn seen_targets(s: Seq<(u64, EguiRenderTargetData)>) -> Seq<(u64, EguiRenderTargetData)>
    decreases s.len(),
{
    if s.len() == 0 {
        s
    } else if s.last().1.keep {
        seen_targets(s.drop_last()).push((s.last().0, unseen(s.last().1)))
    } else {
        seen_targets(s.drop_last())
    }
}

/// No two targets belong to the same entity.
pub open spec fn entities_unique(s: Seq<(u64, EguiRenderTargetData)>) -> bool {
    forall|i: int, j: int| 0 <= i < j < s.len() ==> (#[trigger] s[i]).0 != (#[trigger] s[j]).0
}

proof fn lemma_seen_targets(s: Seq<(u64, EguiRenderTargetData)>)
    requires
        entities_unique(s),
    ensures
        entities_unique(seen_targets(s)),
        forall|i: int| 0 <= i < seen_targets(s).len() ==> exists|j: int| 0 <= j < s.len() && s[j].0 == (
            #[trigger] seen_targets(s)[i]).0,
    decreases s.len(),
{
    if s.len() > 0 {
        let rest = s.drop_last();
        assert(entities_unique(rest));
        lemma_seen_targets(rest);
        if s.last().1.keep {
            let t = seen_targets(s);
            assert(t == seen_targets(rest).push((s.last().0, unseen(s.last().1))));
            assert forall|i: int| 0 <= i < t.len() implies exists|j: int| 0 <= j < s.len() && s[j].0 == (
                #[trigger] t[i]).0 by {
                if i < t.len() - 1 {
                    let j = choose|j: int| 0 <= j < rest.len() && rest[j].0 == seen_targets(rest)[i].0;
                    assert(s[j] == rest[j]);
                } else {
                    assert(s[s.len() - 1].0 == t[i].0);
                }
            }
            assert forall|i: int, j: int| 0 <= i < j < t.len() implies (#[trigger] t[i]).0 != (#[trigger] t[j]).0 by {
                if j == t.len() - 1 {
                    let k = choose|k: int| 0 <= k < rest.len() && rest[k].0 == seen_targets(rest)[i].0;
                    assert(s[k] == rest[k]);
                    assert(s[k].0 != s[s.len() - 1].0);
                } else {
                    assert(t[i] == seen_targets(rest)[i] && t[j] == seen_targets(rest)[j]);
                }
            }
        } else {
            assert forall|i: int| 0 <= i < seen_targets(s).len() implies exists|j: int| 0 <= j < s.len() && s[j].0 == (
                #[trigger] seen_targets(s)[i]).0 by {
                let j = choose|j: int| 0 <= j < rest.len() && rest[j].0 == seen_targets(rest)[i].0;
                assert(s[j] == rest[j]);
            }
        }
    }
}

/// The batched data of every render target, by the target's entity.
pub struct EguiRenderData {
    pub targets: Vec<(u64, EguiRenderTargetData)>,
}

impl EguiRenderData {
    /// Each entity has at most one target.
    pub open spec fn wf(&self) -> bool {
        entities_unique(self.targets@)
    }

    /// No target.
    pub fn new() -> (r: EguiRenderData)
        ensures
            r.wf(),
            r.targets@.len() == 0,
    {
        EguiRenderData { targets: Vec::new() }
    }

    /// Whether some target belongs to `entity`.
    pub open spec fn has(&self, entity: u64) -> bool {
        exists|i: int| 0 <= i < self.targets@.len() && (#[trigger] self.targets@[i]).0 == entity
    }

    /// Starts a frame: drops the targets that were not seen in the last one
    /// and marks the others as not yet seen.
    pub fn begin_frame(&mut self)
        requires
            old(self).wf(),
        ensures
            final(self).wf(),
            final(self).targets@ == seen_targets(old(self).targets@),
    {
        proof {
            lemma_seen_targets(self.targets@);
        }
        let ghost orig = self.targets@;
        let n = self.targets.len();
        let mut i: usize = 0;
        let mut j: usize = 0;
        while j < n
            invariant
                n == orig.len(),
                i <= j <= orig.len(),
                self.targets@.len() == i + (orig.len() - j),
                self.targets@.take(i as int) == seen_targets(orig.take(j as int)),
                self.targets@.skip(i as int) == orig.skip(j as int),
            decreases orig.len() - j,
        {
            let ghost cur = self.targets@;
            assert(cur[i as int] == orig[j as int]) by {
                assert(cur.skip(i as int)[0] == orig.skip(j as int)[0]);
            }
            assert(orig.take(j + 1).drop_last() =~= orig.take(j as int));
            assert(cur.skip(i + 1) =~= orig.skip(j + 1)) by {
                assert forall|k: int| 0 <= k < cur.len() - (i + 1) implies #[trigger] cur.skip(i + 1)[k] == orig.skip(j + 1)[k] by {
                    assert(cur.skip(i as int)[k + 1] == orig.skip(j as int)[k + 1]);
                }
            }
            let (entity, mut data) = self.targets.remove(i);
            if data.keep {
                data.keep = false;
                self.targets.insert(i, (entity, data));
                proof {
                    assert(self.targets@.take(i + 1) =~= cur.take(i as int).push((entity, data)));
                    assert(self.targets@.skip(i + 1) =~= cur.skip(i + 1));
                }
                i = i + 1;
            } else {
                proof {
                    assert(self.targets@.take(i as int) =~= cur.take(i as int));
                    assert(self.targets@.skip(i as int) =~= cur.skip(i + 1));
                }
            }
            j = j + 1;
        }
        assert(orig.take(j as int) =~= orig);
        assert(self.targets@ =~= self.targets@.take(i as int));
    }

    /// The position of `entity`'s target, adding an empty one at the end when
    /// it has none.
    pub fn entry(&mut self, entity: u64) -> (r: usize)
        requires
            old(self).wf(),
        ensures
            final(self).wf(),
            r < final(self).targets@.len(),
            final(self).targets@[r as int].0 == entity,
            old(self).has(entity) ==> final(self).targets@ == old(self).targets@,
            !old(self).has(entity) ==> {
                &&& r as int == old(self).targets@.len()
                &&& final(self).targets@.drop_last() == old(self).targets@
                &&& !final(self).targets@[r as int].1.keep
                &&& final(self).targets@[r as int].1.vertex_data@.len() == 0
                &&& final(self).targets@[r as int].1.index_data@.len() == 0
                &&& final(self).targets@[r as int].1.draw_commands@.len() == 0
                &&& final(self).targets@[r as int].1.postponed_updates@.len() == 0
                &&& final(self).targets@[r as int].1.vertex_buffer_capacity == 0
                &&& final(self).targets@[r as int].1.index_buffer_capacity == 0
            },
    {
        let mut i: usize = 0;
        while i < self.targets.len()
            invariant
                self.targets@ == old(self).targets@,
                entities_unique(old(self).targets@),
                i <= self.targets@.len(),
                forall|k: int| 0 <= k < i ==> (#[trigger] self.targets@[k]).0 != entity,
            decreases self.targets@.len() - i,
        {
            if self.targets[i].0 == entity {
                return i;
            }
            i = i + 1;
        }
        self.targets.push((entity, EguiRenderTargetData::new()));
        assert(self.targets@.drop_last() =~= old(self).targets@);
        assert forall|a: int, b: int| 0 <= a < b < self.targets@.len() implies (#[trigger] self.targets@[a]).0
            != (#[trigger] self.targets@[b]).0 by {
            if b == self.targets@.len() - 1 {
                assert(self.targets@[a] == old(self).targets@[a]);
            } else {
                assert(self.targets@[a] == old(self).targets@[a] && self.targets@[b] == old(self).targets@[b]);
            }
        }
        i
    }
}

} // verus!
