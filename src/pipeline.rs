//! The fixed graphics pipeline: its description, how it is built, and how one
//! object is drawn with it.
use vstd::prelude::*;

use crate::bindings::{descriptor_layout, descriptor_layout_is, DescriptorSetPlan};
use crate::commands::Command;
use crate::geometry::GpuMesh;

verus! {

/// The attachment formats the viewer renders with.
#[derive(Clone, Copy, Debug, PartialEq, Eq, Structural)]
pub enum Format {
    R16G16B16A16Sfloat,
    R8G8B8A8Unorm,
    R8G8B8A8Srgb,
    B8G8R8A8Unorm,
    B8G8R8A8Srgb,
    D32Sfloat,
    D16Unorm,
}

/// Samples per pixel of the rendered attachments.
#[derive(Clone, Copy, Debug, PartialEq, Eq, Structural)]
pub enum SampleCount {
    Sample1,
    Sample2,
    Sample4,
    Sample8,
    Sample16,
    Sample32,
    Sample64,
}

/// Primitive assembly of the vertex stream.
#[derive(Clone, Copy, Debug, PartialEq, Eq, Structural)]
pub enum PrimitiveTopology {
    TriangleList,
}

/// Which faces are culled.
#[derive(Clone, Copy, Debug, PartialEq, Eq, Structural)]
pub enum CullMode {
    Front,
    Back,
}

/// How a fragment's depth is compared with the stored one.
#[derive(Clone, Copy, Debug, PartialEq, Eq, Structural)]
pub enum CompareOp {
    Less,
}

/// The depth test of the pipeline.
#[derive(Clone, Copy, Debug, PartialEq, Eq, Structural)]
pub struct DepthTest {
    pub compare: CompareOp,
    pub write_enable: bool,
}

/// The data type of one vertex attribute.
#[derive(Clone, Copy, Debug, PartialEq, Eq, Structural)]
pub enum AttributeFormat {
    /// Three 32-bit floats.
    R32G32B32Sfloat,
    /// Two 32-bit floats.
    R32G32Sfloat,
}

/// One attribute of the vertex input.
#[derive(Clone, Copy, Debug, PartialEq, Eq, Structural)]
pub struct VertexAttribute {
    pub location: u32,
    pub offset: u32,
    pub format: AttributeFormat,
}

/// What the shaders declare, as the shader compiler reflects it.
#[derive(Clone, Copy, Debug, PartialEq, Eq, Structural)]
pub struct StageInterface {
    /// The `main` entry point was found in the module.
    pub has_entry_point: bool,
    /// Size in bytes of the push-constant block.
    pub push_constant_size: u32,
}

/// Why the pipeline cannot be built.
#[derive(Clone, Copy, Debug, PartialEq, Eq, Structural)]
pub enum PipelineError {
    /// The vertex and fragment stages declare push-constant blocks of different sizes.
    PushConstantSizeMismatch { vertex: u32, fragment: u32 },
    /// The vertex module has no `main` entry point.
    MissingVertexEntryPoint,
    /// The fragment module has no `main` entry point.
    MissingFragmentEntryPoint,
}

/// The one graphics pipeline of the viewer, with the descriptor sets it binds.
///
/// It is built once and only read afterwards; the viewport is dynamic state,
/// so a change of the output extent needs no new pipeline.
#[derive(Clone, Debug)]
pub struct SamplePipeline {
    pub color_attachment_formats: Vec<Format>,
    pub depth_attachment_format: Option<Format>,
    pub samples: SampleCount,
    pub topology: PrimitiveTopology,
    pub cull_mode: CullMode,
    pub depth_test: DepthTest,
    /// One default (blending disabled) blend state per color attachment.
    pub blend_attachment_count: usize,
    pub dynamic_viewport: bool,
    pub vertex_attributes: Vec<VertexAttribute>,
    pub vertex_stride: u32,
    pub push_constant_size: u32,
    pub descriptor_sets: Vec<DescriptorSetPlan>,
}

/// Size in bytes of one vertex: position, normal (three floats each) and
/// texture coordinates (two floats).
pub const VERTEX_STRIDE: u32 = 32;

/// The vertex input that matches the vertex shape: position at location 0,
/// normal at location 1, texture coordinates at location 2, tightly packed.
pub open spec fn vertex_attributes_spec() -> Seq<VertexAttribute> {
    seq![
        VertexAttribute { location: 0, offset: 0, format: AttributeFormat::R32G32B32Sfloat },
        VertexAttribute { location: 1, offset: 12, format: AttributeFormat::R32G32B32Sfloat },
        VertexAttribute { location: 2, offset: 24, format: AttributeFormat::R32G32Sfloat },
    ]
}

/// The result of building the pipeline from these stage interfaces.
pub open spec fn build_result(vs: StageInterface, fs: StageInterface) -> Result<(), PipelineError> {
    if vs.push_constant_size != fs.push_constant_size {
        Err(
            PipelineError::PushConstantSizeMismatch {
                vertex: vs.push_constant_size,
                fragment: fs.push_constant_size,
            },
        )
    } else if !vs.has_entry_point {
        Err(PipelineError::MissingVertexEntryPoint)
    } else if !fs.has_entry_point {
        Err(PipelineError::MissingFragmentEntryPoint)
    } else {
        Ok(())
    }
}

impl SamplePipeline {
    /// The fixed-function state every built pipeline has, for these parameters.
    pub open spec fn describes(
        &self,
        color_formats: Seq<Format>,
        depth_format: Option<Format>,
        samples: SampleCount,
        push_constant_size: u32,
    ) -> bool {
        &&& self.color_attachment_formats@ == color_formats
        &&& self.depth_attachment_format == depth_format
        &&& self.samples == samples
        &&& self.topology == PrimitiveTopology::TriangleList
        &&& self.cull_mode == CullMode::Back
        &&& self.depth_test == (DepthTest { compare: CompareOp::Less, write_enable: true })
        &&& self.blend_attachment_count == color_formats.len()
        &&& self.dynamic_viewport
        &&& self.vertex_attributes@ == vertex_attributes_spec()
        &&& self.vertex_stride == VERTEX_STRIDE
        &&& self.push_constant_size == push_constant_size
        &&& descriptor_layout_is(self.descriptor_sets@)
    }

    /// Builds the pipeline for the given attachment formats and sample count.
    ///
    /// The push-constant sizes of the two stages are compared first: a mismatch
    /// is refused before anything else is looked at, so before any GPU work.
    pub fn new(
        color_attachment_formats: Vec<Format>,
        depth_attachment_format: Option<Format>,
        samples: SampleCount,
        vs: StageInterface,
        fs: StageInterface,
    ) -> (r: Result<SamplePipeline, PipelineError>)
        ensures
            r is Ok <==> build_result(vs, fs) is Ok,
            r matches Err(e) ==> build_result(vs, fs) == Err::<(), PipelineError>(e),
            r matches Ok(p) ==> p.describes(
                color_attachment_formats@,
                depth_attachment_format,
                samples,
                vs.push_constant_size,
            ),
    {
        if vs.push_constant_size != fs.push_constant_size {
            return Err(
                PipelineError::PushConstantSizeMismatch {
                    vertex: vs.push_constant_size,
                    fragment: fs.push_constant_size,
                },
            );
        }
        if !vs.has_entry_point {
            return Err(PipelineError::MissingVertexEntryPoint);
        }
        if !fs.has_entry_point {
            return Err(PipelineError::MissingFragmentEntryPoint);
        }
        let vertex_attributes = vec![
            VertexAttribute { location: 0, offset: 0, format: AttributeFormat::R32G32B32Sfloat },
            VertexAttribute { location: 1, offset: 12, format: AttributeFormat::R32G32B32Sfloat },
            VertexAttribute { location: 2, offset: 24, format: AttributeFormat::R32G32Sfloat },
        ];
        assert(vertex_attributes@ =~= vertex_attributes_spec());
        let blend_attachment_count = color_attachment_formats.len();
        Ok(
            SamplePipeline {
                color_attachment_formats,
                depth_attachment_format,
                samples,
                topology: PrimitiveTopology::TriangleList,
                cull_mode: CullMode::Back,
                depth_test: DepthTest { compare: CompareOp::Less, write_enable: true },
                blend_attachment_count,
                dynamic_viewport: true,
                vertex_attributes,
                vertex_stride: VERTEX_STRIDE,
                push_constant_size: vs.push_constant_size,
                descriptor_sets: descriptor_layout(),
            },
        )
    }

    /// The commands that draw one object: bind the pipeline, the object's
    /// vertex buffer and both descriptor sets, push the camera, then draw,
    /// indexed when the object has an index buffer.
    pub open spec fn object_commands(&self, mesh: GpuMesh) -> Seq<Command> {
        let setup = seq![
            Command::BindPipeline,
            Command::BindVertexBuffer { mesh: mesh.id },
            Command::BindDescriptorSets { first_set: 0, count: 2 },
            Command::PushCameraConstants { size: self.push_constant_size },
        ];
        match mesh.index_count {
            Some(k) => setup + seq![
                Command::BindIndexBuffer { mesh: mesh.id },
                draw_call_of(mesh),
            ],
            None => setup.push(draw_call_of(mesh)),
        }
    }

    /// Records the commands that draw one object.
    pub fn render_object(&self, builder: &mut Vec<Command>, mesh: &GpuMesh)
        ensures
            final(builder)@ == old(builder)@ + self.object_commands(*mesh),
    {
        let ghost start = builder@;
        builder.push(Command::BindPipeline);
        builder.push(Command::BindVertexBuffer { mesh: mesh.id });
        builder.push(Command::BindDescriptorSets { first_set: 0, count: 2 });
        builder.push(Command::PushCameraConstants { size: self.push_constant_size });
        match mesh.index_count {
            Some(index_count) => {
                builder.push(Command::BindIndexBuffer { mesh: mesh.id });
                builder.push(
                    Command::DrawIndexed {
                        index_count,
                        instance_count: 1,
                        first_index: 0,
                        vertex_offset: 0,
                        first_instance: 0,
                    },
                );
            },
            None => {
                builder.push(
                    Command::Draw {
                        vertex_count: mesh.vertex_count,
                        instance_count: 1,
                        first_vertex: 0,
                        first_instance: 0,
                    },
                );
            },
        }
        assert(builder@ =~= start + self.object_commands(*mesh));
    }
}

/// The one draw call an object gets: indexed over its whole index buffer when
/// it has one, otherwise over its whole vertex buffer; a single instance.
pub open spec fn draw_call_of(mesh: GpuMesh) -> Command {
    match mesh.index_count {
        Some(k) => Command::DrawIndexed {
            index_count: k,
            instance_count: 1,
            first_index: 0,
            vertex_offset: 0,
            first_instance: 0,
        },
        None => Command::Draw {
            vertex_count: mesh.vertex_count,
            instance_count: 1,
            first_vertex: 0,
            first_instance: 0,
        },
    }
}

} // verus!
