//! The uniform resources of the scene and the two descriptor sets that bind them.
use vstd::prelude::*;

verus! {

/// The uniform blocks the shaders read.
#[derive(Clone, Copy, Debug, PartialEq, Eq, Structural)]
pub enum UniformKind {
    /// The per-object model transform, read by the vertex stage.
    ModelTransform,
    /// The surface material, read by the fragment stage.
    Material,
    /// The scene light, read by the fragment stage.
    Light,
}

/// The shader stage that reads a binding.
#[derive(Clone, Copy, Debug, PartialEq, Eq, Structural)]
pub enum ShaderStage {
    Vertex,
    Fragment,
}

/// One uniform buffer bound at `binding` of a descriptor set.
#[derive(Clone, Copy, Debug, PartialEq, Eq, Structural)]
pub struct UniformBinding {
    pub binding: u32,
    pub uniform: UniformKind,
    pub stage: ShaderStage,
}

/// One descriptor set: its index in the pipeline layout and its bindings.
#[derive(Clone, Debug)]
pub struct DescriptorSetPlan {
    pub set: u32,
    pub bindings: Vec<UniformBinding>,
}

/// Set 0 holds what the vertex stage reads per object.
pub open spec fn vertex_set_bindings() -> Seq<UniformBinding> {
    seq![UniformBinding { binding: 0, uniform: UniformKind::ModelTransform, stage: ShaderStage::Vertex }]
}

/// Set 1 holds the material and the light, read by the fragment stage.
pub open spec fn fragment_set_bindings() -> Seq<UniformBinding> {
    seq![
        UniformBinding { binding: 0, uniform: UniformKind::Material, stage: ShaderStage::Fragment },
        UniformBinding { binding: 1, uniform: UniformKind::Light, stage: ShaderStage::Fragment },
    ]
}

/// The layout as sets and bindings: exactly two sets, numbered 0 and 1.
pub open spec fn descriptor_layout_is(sets: Seq<DescriptorSetPlan>) -> bool {
    &&& sets.len() == 2
    &&& sets[0].set == 0
    &&& sets[0].bindings@ == vertex_set_bindings()
    &&& sets[1].set == 1
    &&& sets[1].bindings@ == fragment_set_bindings()
}

/// The two descriptor sets, created once and bound unchanged in every frame.
pub fn descriptor_layout() -> (r: Vec<DescriptorSetPlan>)
    ensures
        descriptor_layout_is(r@),
{
    let vertex_set = DescriptorSetPlan {
        set: 0,
        bindings: vec![
            UniformBinding { binding: 0, uniform: UniformKind::ModelTransform, stage: ShaderStage::Vertex },
        ],
    };
    let fragment_set = DescriptorSetPlan {
        set: 1,
        bindings: vec![
            UniformBinding { binding: 0, uniform: UniformKind::Material, stage: ShaderStage::Fragment },
            UniformBinding { binding: 1, uniform: UniformKind::Light, stage: ShaderStage::Fragment },
        ],
    };
    assert(vertex_set.bindings@ =~= vertex_set_bindings());
    assert(fragment_set.bindings@ =~= fragment_set_bindings());
    vec![vertex_set, fragment_set]
}

} // verus!
