//! The commands a frame records, as plain data the caller replays on the device.
use vstd::prelude::*;

verus! {

/// What happens to an attachment when the render scope begins.
#[derive(Clone, Copy, Debug, PartialEq, Eq, Structural)]
pub enum LoadOp {
    Load,
    Clear,
    DontCare,
}

/// What happens to an attachment when the render scope ends.
#[derive(Clone, Copy, Debug, PartialEq, Eq, Structural)]
pub enum StoreOp {
    Store,
    DontCare,
}

/// One recorded command.
///
/// A cleared color attachment is cleared to opaque black and a cleared depth
/// attachment to the far plane (1.0).
#[derive(Clone, Copy, Debug, PartialEq, Eq, Structural)]
pub enum Command {
    /// Begin a render scope over the color and depth attachments. With
    /// `resolve_msaa` the color attachment is the multisampled view, resolved
    /// into the destination view at the end of the scope.
    BeginRendering {
        color_load: LoadOp,
        color_store: StoreOp,
        depth_load: LoadOp,
        depth_store: StoreOp,
        resolve_msaa: bool,
    },
    /// Set viewport 0 to cover `width` by `height` pixels from the origin.
    SetViewport { width: u32, height: u32 },
    /// Bind the graphics pipeline.
    BindPipeline,
    /// Bind the vertex buffer of a mesh at binding 0.
    BindVertexBuffer { mesh: usize },
    /// Bind `count` descriptor sets starting at set `first_set`.
    BindDescriptorSets { first_set: u32, count: u32 },
    /// Push the camera block (view, projection, position) of `size` bytes at offset 0.
    PushCameraConstants { size: u32 },
    /// Bind the index buffer of a mesh.
    BindIndexBuffer { mesh: usize },
    /// An indexed draw.
    DrawIndexed {
        index_count: u32,
        instance_count: u32,
        first_index: u32,
        vertex_offset: i32,
        first_instance: u32,
    },
    /// A non-indexed draw.
    Draw { vertex_count: u32, instance_count: u32, first_vertex: u32, first_instance: u32 },
    /// End the render scope.
    EndRendering,
}

/// The command is a draw call, indexed or not.
pub open spec fn is_draw(c: Command) -> bool {
    c is DrawIndexed || c is Draw
}

/// The draw calls of a command sequence, in order.
pub open spec fn draw_calls(cmds: Seq<Command>) -> Seq<Command>
    decreases cmds.len(),
{
    if cmds.len() == 0 {
        seq![]
    } else {
        let rest = draw_calls(cmds.drop_last());
        if is_draw(cmds.last()) {
            rest.push(cmds.last())
        } else {
            rest
        }
    }
}

/// The draw calls of two sequences put together are those of each, in turn.
pub proof fn lemma_draw_calls_append(a: Seq<Command>, b: Seq<Command>)
    ensures
        draw_calls(a + b) == draw_calls(a) + draw_calls(b),
    decreases b.len(),
{
    if b.len() == 0 {
        assert(a + b =~= a);
        assert(draw_calls(b) =~= seq![]);
        assert(draw_calls(a) + draw_calls(b) =~= draw_calls(a));
    } else {
        lemma_draw_calls_append(a, b.drop_last());
        assert((a + b).drop_last() =~= a + b.drop_last());
        assert((a + b).last() == b.last());
        if is_draw(b.last()) {
            assert(draw_calls(a) + draw_calls(b) =~= (draw_calls(a) + draw_calls(b.drop_last())).push(
                b.last(),
            ));
        } else {
            assert(draw_calls(a) + draw_calls(b) =~= draw_calls(a) + draw_calls(b.drop_last()));
        }
    }
}

} // verus!
