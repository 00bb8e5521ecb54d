use rt_renderer::commands::{Command, LoadOp, StoreOp};
use rt_renderer::geometry::{upload_plan, GpuMesh, ModelSource};
use rt_renderer::pipeline::{Format, SampleCount, SamplePipeline, StageInterface};
use rt_renderer::render::{draw, frame_attachments, AttachmentImage, FrameTarget};
use rt_renderer::sync::{Submission, SubmissionChain};

fn pipeline() -> SamplePipeline {
    let stage = StageInterface { has_entry_point: true, push_constant_size: 144 };
    SamplePipeline::new(
        vec![Format::R16G16B16A16Sfloat],
        Some(Format::D32Sfloat),
        SampleCount::Sample4,
        stage,
        stage,
    )
    .unwrap()
}

fn draws(cmds: &[Command]) -> Vec<Command> {
    cmds.iter()
        .copied()
        .filter(|c| matches!(c, Command::Draw { .. } | Command::DrawIndexed { .. }))
        .collect()
}

fn target(width: u32, height: u32) -> FrameTarget {
    FrameTarget { width, height, msaa: true }
}

#[test]
fn single_triangle_end_to_end() {
    let meshes =
        upload_plan(&vec![ModelSource { vertex_count: 3, indices: Some(vec![0, 1, 2]) }]).unwrap();
    assert_eq!(meshes[0].vertex_count, 3);
    assert_eq!(meshes[0].index_count, Some(3));
    let p = pipeline();
    let mut chain = SubmissionChain::new();
    let frame = draw(&p, &mut chain, 0, &target(1280, 720), &meshes);
    assert_eq!(
        draws(&frame.commands),
        vec![Command::DrawIndexed {
            index_count: 3,
            instance_count: 1,
            first_index: 0,
            vertex_offset: 0,
            first_instance: 0
        }]
    );
}

#[test]
fn full_frame_sequence() {
    let p = pipeline();
    let mut chain = SubmissionChain::new();
    let mesh = GpuMesh { id: 7, vertex_count: 24, index_count: Some(36) };
    let frame = draw(&p, &mut chain, 2, &target(1280, 720), &vec![mesh]);
    assert_eq!(
        frame.commands,
        vec![
            Command::BeginRendering {
                color_load: LoadOp::Clear,
                color_store: StoreOp::Store,
                depth_load: LoadOp::Clear,
                depth_store: StoreOp::DontCare,
                resolve_msaa: true,
            },
            Command::SetViewport { width: 1280, height: 720 },
            Command::BindPipeline,
            Command::BindVertexBuffer { mesh: 7 },
            Command::BindDescriptorSets { first_set: 0, count: 2 },
            Command::PushCameraConstants { size: 144 },
            Command::BindIndexBuffer { mesh: 7 },
            Command::DrawIndexed {
                index_count: 36,
                instance_count: 1,
                first_index: 0,
                vertex_offset: 0,
                first_instance: 0
            },
            Command::EndRendering,
        ]
    );
    assert_eq!(frame.submission, Submission { frame: 0, image: 2, waits_on: None });
}

#[test]
fn unindexed_model_draws_its_vertices() {
    let p = pipeline();
    let mut chain = SubmissionChain::new();
    let mesh = GpuMesh { id: 0, vertex_count: 5, index_count: None };
    let frame = draw(&p, &mut chain, 0, &target(64, 64), &vec![mesh]);
    assert_eq!(
        draws(&frame.commands),
        vec![Command::Draw { vertex_count: 5, instance_count: 1, first_vertex: 0, first_instance: 0 }]
    );
    assert!(!frame.commands.iter().any(|c| matches!(c, Command::BindIndexBuffer { .. })));
}

#[test]
fn one_draw_per_object_in_given_order() {
    let p = pipeline();
    let mut chain = SubmissionChain::new();
    let objects = vec![
        GpuMesh { id: 1, vertex_count: 4, index_count: Some(6) },
        GpuMesh { id: 0, vertex_count: 9, index_count: None },
    ];
    let frame = draw(&p, &mut chain, 0, &target(10, 10), &objects);
    assert_eq!(
        draws(&frame.commands),
        vec![
            Command::DrawIndexed {
                index_count: 6,
                instance_count: 1,
                first_index: 0,
                vertex_offset: 0,
                first_instance: 0
            },
            Command::Draw { vertex_count: 9, instance_count: 1, first_vertex: 0, first_instance: 0 },
        ]
    );
}

#[test]
fn empty_frame_only_clears() {
    let p = pipeline();
    let mut chain = SubmissionChain::new();
    let frame = draw(&p, &mut chain, 0, &FrameTarget { width: 8, height: 4, msaa: false }, &vec![]);
    assert_eq!(frame.commands.len(), 3);
    assert_eq!(frame.commands[2], Command::EndRendering);
}

#[test]
fn same_pipeline_records_two_extents() {
    let p = pipeline();
    let mut chain = SubmissionChain::new();
    let objects = vec![GpuMesh { id: 0, vertex_count: 3, index_count: Some(3) }];
    let a = draw(&p, &mut chain, 0, &target(1280, 720), &objects);
    let b = draw(&p, &mut chain, 1, &target(1920, 1080), &objects);
    assert_eq!(a.commands[1], Command::SetViewport { width: 1280, height: 720 });
    assert_eq!(b.commands[1], Command::SetViewport { width: 1920, height: 1080 });
    assert_eq!(draws(&a.commands), draws(&b.commands));
    assert_eq!(draws(&a.commands).len(), 1);
}

#[test]
fn consecutive_frames_are_chained() {
    let p = pipeline();
    let mut chain = SubmissionChain::new();
    let a = draw(&p, &mut chain, 0, &target(4, 4), &vec![]);
    let b = draw(&p, &mut chain, 1, &target(4, 4), &vec![]);
    let c = draw(&p, &mut chain, 0, &target(4, 4), &vec![]);
    assert_eq!(a.submission, Submission { frame: 0, image: 0, waits_on: None });
    assert_eq!(b.submission, Submission { frame: 1, image: 1, waits_on: Some(0) });
    assert_eq!(c.submission, Submission { frame: 2, image: 0, waits_on: Some(1) });
    assert_eq!(chain.submitted, 3);
}

#[test]
fn chain_refuses_past_the_last_frame_number() {
    let mut chain = SubmissionChain { submitted: u64::MAX - 1 };
    assert!(chain.can_submit());
    let s = chain.submit(3);
    assert_eq!(s, Submission { frame: u64::MAX - 1, image: 3, waits_on: Some(u64::MAX - 2) });
    assert!(!chain.can_submit());
}

#[test]
fn multisampled_attachments() {
    let a = frame_attachments(1280, 720, Format::R16G16B16A16Sfloat, Format::D32Sfloat, SampleCount::Sample4);
    assert_eq!(
        a.depth,
        AttachmentImage { width: 1280, height: 720, format: Format::D32Sfloat, samples: SampleCount::Sample4 }
    );
    assert_eq!(
        a.msaa_color,
        Some(AttachmentImage {
            width: 1280,
            height: 720,
            format: Format::R16G16B16A16Sfloat,
            samples: SampleCount::Sample4
        })
    );
    assert_eq!(a.target, FrameTarget { width: 1280, height: 720, msaa: true });
}

#[test]
fn single_sample_has_no_msaa_image() {
    let a = frame_attachments(800, 600, Format::B8G8R8A8Srgb, Format::D16Unorm, SampleCount::Sample1);
    assert_eq!(a.msaa_color, None);
    assert_eq!(a.target, FrameTarget { width: 800, height: 600, msaa: false });
    assert_eq!(a.depth.format, Format::D16Unorm);
}
