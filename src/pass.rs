//! The operations of a GUI render pass, planned from a target's draw commands.
use crate::batch::{
    batch_fits, batched_commands, batched_indices, command_of, lemma_prefix_monotone, on_target,
    ClippedPrimitiveInput, DrawCommand, DrawPrimitive, PrimitiveInput,
};
use crate::rect::PixelRect;
use vstd::prelude::*;

verus! {

/// One step of the GUI render pass.
#[derive(Debug, Clone, Copy, PartialEq, Eq, Structural)]
pub enum PassOp {
    /// Set the viewport to the whole target, bind the pipeline and the transform.
    Reset,
    /// Restrict drawing to a rectangle.
    SetScissor(PixelRect),
    /// Draw the indices `start..end` for the command at position `command`,
    /// with that command's texture.
    DrawIndexed { command: usize, start: u32, end: u32 },
    /// Run the paint callback of the command at position `command`, which
    /// leaves the pass to be reset.
    PaintCallback { command: usize },
}

/// State of the pass between commands: whether it must be reset, the scissor
/// set last, the first index of the next mesh, and the operations so far.
pub type PassState = (bool, Option<PixelRect>, int, Seq<PassOp>);

/// The state in which a pass starts.
pub open spec fn initial_state() -> PassState {
    (true, None, 0, Seq::empty())
}

/// The pass after the command at position `idx`, drawing into the pixels
/// `target` (a whole window or image, or a camera's viewport in it). `ready`
/// says for a mesh whether its texture is bound and for a callback whether
/// its viewport has pixels; what is not ready is
/// skipped, a skipped mesh still using up its indices. A command clipped off
/// the target is skipped without using them up.
pub open spec fn step(s: PassState, cmd: DrawCommand, ready: bool, idx: int, target: PixelRect) -> PassState {
    let ops1 = if s.0 { s.3.push(PassOp::Reset) } else { s.3 };
    let last1 = if s.0 { None } else { s.1 };
    let scissor = cmd.clip_rect.overlap(target);
    if scissor.empty() {
        (false, last1, s.2, ops1)
    } else {
        let last2 = Some(scissor);
        let ops2 = if last1 != Some(scissor) { ops1.push(PassOp::SetScissor(scissor)) } else { ops1 };
        match cmd.primitive {
            DrawPrimitive::Egui { vertices_count, .. } => {
                let end = s.2 + vertices_count;
                if ready {
                    (false, last2, end, ops2.push(
                        PassOp::DrawIndexed { command: idx as usize, start: s.2 as u32, end: end as u32 },
                    ))
                } else {
                    (false, last2, end, ops2)
                }
            },
            DrawPrimitive::PaintCallback { .. } => {
                if ready {
                    (true, last2, s.2, ops2.push(PassOp::PaintCallback { command: idx as usize }))
                } else {
                    (false, last2, s.2, ops2)
                }
            },
        }
    }
}

/// The pass after the first `n` commands.
pub open spec fn pass_after(
    cmds: Seq<DrawCommand>,
    ready: Seq<bool>,
    n: int,
    target: PixelRect,
) -> PassState
    decreases n,
{
    if n <= 0 {
        initial_state()
    } else {
        step(pass_after(cmds, ready, n - 1, target), cmds[n - 1], ready[n - 1], n - 1, target)
    }
}

/// Number of indices of the mesh commands among the first `n`.
pub open spec fn index_total(cmds: Seq<DrawCommand>, n: int) -> int
    decreases n,
{
    if n <= 0 {
        0
    } else {
        index_total(cmds, n - 1) + match cmds[n - 1].primitive {
            DrawPrimitive::Egui { vertices_count, .. } => vertices_count as int,
            DrawPrimitive::PaintCallback { .. } => 0,
        }
    }
}

proof fn lemma_pass_offset(cmds: Seq<DrawCommand>, ready: Seq<bool>, n: int, target: PixelRect)
    requires
        0 <= n <= cmds.len(),
        ready.len() == cmds.len(),
    ensures
        0 <= pass_after(cmds, ready, n, target).2 <= index_total(cmds, n),
    decreases n,
{
    if n > 0 {
        lemma_pass_offset(cmds, ready, n - 1, target);
    }
}

/// Every draw the pass makes stays within the indices of the commands:
/// `start <= end <= index_total`.
pub proof fn lemma_draws_in_bounds(cmds: Seq<DrawCommand>, ready: Seq<bool>, n: int, target: PixelRect)
    requires
        0 <= n <= cmds.len(),
        ready.len() == cmds.len(),
        index_total(cmds, n) <= u32::MAX,
    ensures
        forall|i: int| 0 <= i < pass_after(cmds, ready, n, target).3.len() ==> match #[trigger] pass_after(
            cmds,
            ready,
            n,
            target,
        ).3[i] {
            PassOp::DrawIndexed { start, end, .. } => start <= end <= index_total(cmds, n),
            _ => true,
        },
    decreases n,
{
    if n > 0 {
        lemma_index_total_monotone(cmds, n - 1, n);
        lemma_draws_in_bounds(cmds, ready, n - 1, target);
        lemma_pass_offset(cmds, ready, n - 1, target);
    }
}

/// Two sequences of commands that agree on their first `n` count the same
/// indices among them.
pub proof fn lemma_index_total_prefix(a: Seq<DrawCommand>, b: Seq<DrawCommand>, n: int)
    requires
        0 <= n <= a.len(),
        n <= b.len(),
        a.subrange(0, n) == b.subrange(0, n),
    ensures
        index_total(a, n) == index_total(b, n),
    decreases n,
{
    if n > 0 {
        assert(a[n - 1] == a.subrange(0, n)[n - 1]);
        assert(b[n - 1] == b.subrange(0, n)[n - 1]);
        assert(a.subrange(0, n - 1) =~= a.subrange(0, n).subrange(0, n - 1));
        assert(b.subrange(0, n - 1) =~= b.subrange(0, n).subrange(0, n - 1));
        lemma_index_total_prefix(a, b, n - 1);
    }
}

/// The draw commands of a batch count exactly its indices, so that a pass
/// over them draws the whole index data.
pub proof fn lemma_batch_index_total(
    prims: Seq<ClippedPrimitiveInput>,
    n: int,
    entity: u64,
    target: PixelRect,
)
    requires
        0 <= n <= prims.len(),
        batch_fits(prims, target),
    ensures
        index_total(
            batched_commands(prims, n, entity, target),
            batched_commands(prims, n, entity, target).len() as int,
        ) == batched_indices(prims, n, target).len(),
    decreases n,
{
    if n > 0 {
        lemma_batch_index_total(prims, n - 1, entity, target);
        lemma_prefix_monotone(prims, n, prims.len() as int, target);
        let before = batched_commands(prims, n - 1, entity, target);
        let after = batched_commands(prims, n, entity, target);
        if on_target(prims[n - 1].clip_rect, target) {
            assert(after == before.push(command_of(prims, n - 1, entity)));
            assert(after.subrange(0, before.len() as int) =~= before.subrange(0, before.len() as int));
            lemma_index_total_prefix(after, before, before.len() as int);
            match prims[n - 1].primitive {
                PrimitiveInput::Mesh(m) => {
                    assert(batched_indices(prims, n, target).len() == batched_indices(prims, n - 1, target).len()
                        + m.indices@.len());
                },
                PrimitiveInput::PaintCallback => {},
            }
        }
    }
}

proof fn lemma_index_total_monotone(cmds: Seq<DrawCommand>, m: int, n: int)
    requires
        0 <= m <= n <= cmds.len(),
    ensures
        index_total(cmds, m) <= index_total(cmds, n),
    decreases n - m,
{
    if m < n {
        lemma_index_total_monotone(cmds, m, n - 1);
    }
}

/// Plans the render pass that draws a target's commands into the pixels
/// `target`, to which every scissor is clipped; `ready[i]` tells whether the `i`-th command can be drawn.
///
/// The pass is reset before the first command and after each paint callback;
/// a scissor is set only when it differs from the one in force.
pub fn plan_pass(commands: &Vec<DrawCommand>, ready: &Vec<bool>, target: PixelRect) -> (r: Vec<PassOp>)
    requires
        ready@.len() == commands@.len(),
        index_total(commands@, commands@.len() as int) <= u32::MAX,
    ensures
        r@ == pass_after(commands@, ready@, commands@.len() as int, target).3,
{
    let mut ops: Vec<PassOp> = Vec::new();
    let mut requires_reset = true;
    let mut last_scissor: Option<PixelRect> = None;
    let mut vertex_offset: u32 = 0;
    let mut i: usize = 0;
    while i < commands.len()
        invariant
            ready@.len() == commands@.len(),
            index_total(commands@, commands@.len() as int) <= u32::MAX,
            i <= commands@.len(),
            pass_after(commands@, ready@, i as int, target) == (
                requires_reset,
                last_scissor,
                vertex_offset as int,
                ops@,
            ),
        decreases commands@.len() - i,
    {
        proof {
            lemma_pass_offset(commands@, ready@, i as int, target);
            lemma_index_total_monotone(commands@, i as int + 1, commands@.len() as int);
        }
        let command = &commands[i];
        if requires_reset {
            ops.push(PassOp::Reset);
            last_scissor = None;
            requires_reset = false;
        }
        let scissor = command.clip_rect.intersect(target);
        if !scissor.is_empty() {
            if last_scissor != Some(scissor) {
                last_scissor = Some(scissor);
                ops.push(PassOp::SetScissor(scissor));
            }
            match command.primitive {
                DrawPrimitive::Egui { vertices_count, .. } => {
                    let end = vertex_offset + vertices_count as u32;
                    if ready[i] {
                        ops.push(PassOp::DrawIndexed { command: i, start: vertex_offset, end });
                    }
                    vertex_offset = end;
                },
                DrawPrimitive::PaintCallback { .. } => {
                    if ready[i] {
                        ops.push(PassOp::PaintCallback { command: i });
                        requires_reset = true;
                    }
                },
            }
        }
        i = i + 1;
    }
    ops
}

} // verus!
