//! Recording of one frame: the render scope, the dynamic viewport, one draw
//! per object in the order given, and the frame's place in the submission chain.
use vstd::prelude::*;

use crate::commands::{draw_calls, is_draw, lemma_draw_calls_append, Command, LoadOp, StoreOp};
use crate::geometry::GpuMesh;
use crate::pipeline::{draw_call_of, Format, SampleCount, SamplePipeline};
use crate::sync::{after_submit, next_submission, Submission, SubmissionChain};

verus! {

/// Where a frame is rendered: the extent of the destination view, and whether
/// an intermediate multisampled color view is rendered into and resolved.
#[derive(Clone, Copy, Debug, PartialEq, Eq, Structural)]
pub struct FrameTarget {
    pub width: u32,
    pub height: u32,
    pub msaa: bool,
}

/// One size-dependent image to create for rendering.
#[derive(Clone, Copy, Debug, PartialEq, Eq, Structural)]
pub struct AttachmentImage {
    pub width: u32,
    pub height: u32,
    pub format: Format,
    pub samples: SampleCount,
}

/// The images that persist across frames and are recreated on resize: the
/// depth image and, when multisampling, the multisampled color image.
#[derive(Clone, Copy, Debug, PartialEq, Eq, Structural)]
pub struct FrameAttachments {
    pub depth: AttachmentImage,
    pub msaa_color: Option<AttachmentImage>,
    pub target: FrameTarget,
}

/// The size-dependent attachments for an output of `width` by `height` pixels
/// in `color_format`, rendered with `samples` samples per pixel and the given
/// depth format.
pub open spec fn attachments_spec(
    width: u32,
    height: u32,
    color_format: Format,
    depth_format: Format,
    samples: SampleCount,
) -> FrameAttachments {
    FrameAttachments {
        depth: AttachmentImage { width, height, format: depth_format, samples },
        msaa_color: if samples == SampleCount::Sample1 {
            None
        } else {
            Some(AttachmentImage { width, height, format: color_format, samples })
        },
        target: FrameTarget { width, height, msaa: samples != SampleCount::Sample1 },
    }
}

/// Describes the attachments to (re)create for the current output extent.
pub fn frame_attachments(
    width: u32,
    height: u32,
    color_format: Format,
    depth_format: Format,
    samples: SampleCount,
) -> (r: FrameAttachments)
    ensures
        r == attachments_spec(width, height, color_format, depth_format, samples),
{
    let msaa = match samples {
        SampleCount::Sample1 => false,
        _ => true,
    };
    let msaa_color = if msaa {
        Some(AttachmentImage { width, height, format: color_format, samples })
    } else {
        None
    };
    FrameAttachments {
        depth: AttachmentImage { width, height, format: depth_format, samples },
        msaa_color,
        target: FrameTarget { width, height, msaa },
    }
}

/// A recorded frame: its single-use command sequence and its submission.
#[derive(Clone, Debug)]
pub struct RecordedFrame {
    pub commands: Vec<Command>,
    pub submission: Submission,
}

/// Opening of the render scope: clear color and depth on load, keep the color
/// and discard the depth at the end; then the full-target viewport.
pub open spec fn frame_prologue(target: FrameTarget) -> Seq<Command> {
    seq![
        Command::BeginRendering {
            color_load: LoadOp::Clear,
            color_store: StoreOp::Store,
            depth_load: LoadOp::Clear,
            depth_store: StoreOp::DontCare,
            resolve_msaa: target.msaa,
        },
        Command::SetViewport { width: target.width, height: target.height },
    ]
}

/// The commands of all objects, in the order given.
pub open spec fn objects_commands(p: SamplePipeline, objects: Seq<GpuMesh>) -> Seq<Command>
    decreases objects.len(),
{
    if objects.len() == 0 {
        seq![]
    } else {
        objects_commands(p, objects.drop_last()) + p.object_commands(objects.last())
    }
}

/// The whole command sequence of a frame.
pub open spec fn frame_commands(p: SamplePipeline, target: FrameTarget, objects: Seq<GpuMesh>) -> Seq<
    Command,
> {
    frame_prologue(target) + objects_commands(p, objects) + seq![Command::EndRendering]
}

/// The draw calls of one command, alone.
proof fn lemma_draw_calls_single(c: Command)
    ensures
        draw_calls(seq![c]) == if is_draw(c) {
            seq![c]
        } else {
            Seq::<Command>::empty()
        },
{
    assert(seq![c].drop_last() =~= Seq::<Command>::empty());
    assert(draw_calls(Seq::<Command>::empty()) =~= Seq::<Command>::empty());
    if is_draw(c) {
        assert(Seq::<Command>::empty().push(c) =~= seq![c]);
    }
}

/// Drawing one object issues exactly one draw call: an indexed draw of
/// `index_count = K`, one instance, when the object has an index buffer of
/// length K, and otherwise a non-indexed draw of all its vertices, one instance.
pub proof fn lemma_one_draw_per_object(p: SamplePipeline, mesh: GpuMesh)
    ensures
        draw_calls(p.object_commands(mesh)) == seq![draw_call_of(mesh)],
        mesh.index_count matches Some(k) ==> draw_call_of(mesh) == (Command::DrawIndexed {
            index_count: k,
            instance_count: 1,
            first_index: 0,
            vertex_offset: 0,
            first_instance: 0,
        }),
        mesh.index_count is None ==> draw_call_of(mesh) == (Command::Draw {
            vertex_count: mesh.vertex_count,
            instance_count: 1,
            first_vertex: 0,
            first_instance: 0,
        }),
{
    let s0 = seq![Command::BindPipeline];
    let s1 = seq![Command::BindVertexBuffer { mesh: mesh.id }];
    let s2 = seq![Command::BindDescriptorSets { first_set: 0, count: 2 }];
    let s3 = seq![Command::PushCameraConstants { size: p.push_constant_size }];
    let d = seq![draw_call_of(mesh)];
    lemma_draw_calls_single(Command::BindPipeline);
    lemma_draw_calls_single(Command::BindVertexBuffer { mesh: mesh.id });
    lemma_draw_calls_single(Command::BindDescriptorSets { first_set: 0, count: 2 });
    lemma_draw_calls_single(Command::PushCameraConstants { size: p.push_constant_size });
    lemma_draw_calls_single(draw_call_of(mesh));
    lemma_draw_calls_append(s0, s1);
    lemma_draw_calls_append(s0 + s1, s2);
    lemma_draw_calls_append(s0 + s1 + s2, s3);
    let setup = s0 + s1 + s2 + s3;
    assert(draw_calls(setup) =~= Seq::<Command>::empty());
    match mesh.index_count {
        Some(k) => {
            let b = seq![Command::BindIndexBuffer { mesh: mesh.id }];
            lemma_draw_calls_single(Command::BindIndexBuffer { mesh: mesh.id });
            lemma_draw_calls_append(setup, b);
            lemma_draw_calls_append(setup + b, d);
            assert(p.object_commands(mesh) =~= setup + b + d);
        },
        None => {
            lemma_draw_calls_append(setup, d);
            assert(p.object_commands(mesh) =~= setup + d);
        },
    }
}

/// The draw calls of a list of objects: one per object, in the order given.
pub proof fn lemma_objects_draw_calls(p: SamplePipeline, objects: Seq<GpuMesh>)
    ensures
        draw_calls(objects_commands(p, objects)) == objects.map_values(|m: GpuMesh| draw_call_of(m)),
    decreases objects.len(),
{
    if objects.len() == 0 {
        assert(draw_calls(Seq::<Command>::empty()) =~= Seq::<Command>::empty());
        assert(objects.map_values(|m: GpuMesh| draw_call_of(m)) =~= Seq::<Command>::empty());
    } else {
        lemma_objects_draw_calls(p, objects.drop_last());
        lemma_one_draw_per_object(p, objects.last());
        lemma_draw_calls_append(objects_commands(p, objects.drop_last()), p.object_commands(objects.last()));
        assert(objects.map_values(|m: GpuMesh| draw_call_of(m)) =~= objects.drop_last().map_values(
            |m: GpuMesh| draw_call_of(m),
        ) + seq![draw_call_of(objects.last())]);
    }
}

/// A frame issues exactly one draw call per object, in the order given, and
/// no other.
pub proof fn lemma_frame_draw_calls(p: SamplePipeline, target: FrameTarget, objects: Seq<GpuMesh>)
    ensures
        draw_calls(frame_commands(p, target, objects)) == objects.map_values(
            |m: GpuMesh| draw_call_of(m),
        ),
{
    let pro = frame_prologue(target);
    assert(pro =~= seq![pro[0]] + seq![pro[1]]);
    lemma_draw_calls_single(pro[0]);
    lemma_draw_calls_single(pro[1]);
    lemma_draw_calls_single(Command::EndRendering);
    lemma_draw_calls_append(seq![pro[0]], seq![pro[1]]);
    assert(draw_calls(pro) =~= Seq::<Command>::empty());
    lemma_objects_draw_calls(p, objects);
    lemma_draw_calls_append(pro, objects_commands(p, objects));
    lemma_draw_calls_append(pro + objects_commands(p, objects), seq![Command::EndRendering]);
    assert(draw_calls(pro + objects_commands(p, objects)) =~= draw_calls(objects_commands(p, objects)));
    assert(draw_calls(frame_commands(p, target, objects)) =~= draw_calls(objects_commands(p, objects)));
}

/// The same pipeline, unchanged, records a frame for any two extents: each
/// frame sets a viewport of its own extent and issues the same draw calls, so
/// a resize never asks for a new pipeline.
pub proof fn lemma_viewport_follows_extent(
    p: SamplePipeline,
    t1: FrameTarget,
    t2: FrameTarget,
    objects: Seq<GpuMesh>,
)
    requires
        t1.width != t2.width || t1.height != t2.height,
    ensures
        frame_commands(p, t1, objects)[1] == (Command::SetViewport { width: t1.width, height: t1.height }),
        frame_commands(p, t2, objects)[1] == (Command::SetViewport { width: t2.width, height: t2.height }),
        draw_calls(frame_commands(p, t1, objects)) == draw_calls(frame_commands(p, t2, objects)),
        frame_commands(p, t1, objects)[1] != frame_commands(p, t2, objects)[1],
{
    lemma_frame_draw_calls(p, t1, objects);
    lemma_frame_draw_calls(p, t2, objects);
}

/// Records one frame and chains it after the previously submitted one.
pub fn draw(
    pipeline: &SamplePipeline,
    chain: &mut SubmissionChain,
    image: u32,
    target: &FrameTarget,
    objects: &Vec<GpuMesh>,
) -> (r: RecordedFrame)
    requires
        old(chain).submitted < u64::MAX,
    ensures
        r.commands@ == frame_commands(*pipeline, *target, objects@),
        r.submission == next_submission(*old(chain), image),
        *final(chain) == after_submit(*old(chain)),
{
    let mut builder: Vec<Command> = Vec::new();
    builder.push(
        Command::BeginRendering {
            color_load: LoadOp::Clear,
            color_store: StoreOp::Store,
            depth_load: LoadOp::Clear,
            depth_store: StoreOp::DontCare,
            resolve_msaa: target.msaa,
        },
    );
    builder.push(Command::SetViewport { width: target.width, height: target.height });
    assert(builder@ =~= frame_prologue(*target) + objects_commands(*pipeline, objects@.take(0)));
    let mut i: usize = 0;
    while i < objects.len()
        invariant
            i <= objects@.len(),
            builder@ == frame_prologue(*target) + objects_commands(*pipeline, objects@.take(i as int)),
        decreases objects@.len() - i,
    {
        let ghost before = builder@;
        pipeline.render_object(&mut builder, &objects[i]);
        assert(objects@.take(i as int + 1).drop_last() =~= objects@.take(i as int));
        assert(objects@.take(i as int + 1).last() == objects@[i as int]);
        i = i + 1;
    }
    assert(objects@.take(i as int) =~= objects@);
    builder.push(Command::EndRendering);
    let submission = chain.submit(image);
    RecordedFrame { commands: builder, submission }
}

} // verus!
