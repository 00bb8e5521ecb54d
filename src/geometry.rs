//! Validation of loaded geometry before it is uploaded to the GPU.
use vstd::prelude::*;

verus! {

/// The shape of one loaded model, as the scene loader hands it over:
/// how many vertices it has and, if it is indexed, its 32-bit index list.
#[derive(Clone, Debug)]
pub struct ModelSource {
    pub vertex_count: usize,
    pub indices: Option<Vec<u32>>,
}

/// A model whose buffers have been checked and may be uploaded.
///
/// `id` is the model's position in the scene; the counts are what the GPU
/// buffers will hold.
#[derive(Clone, Copy, Debug, PartialEq, Eq, Structural)]
pub struct GpuMesh {
    pub id: usize,
    pub vertex_count: u32,
    pub index_count: Option<u32>,
}

/// Why a model cannot be uploaded.
#[derive(Clone, Copy, Debug, PartialEq, Eq, Structural)]
pub enum GeometryError {
    /// The vertex count does not fit a 32-bit draw parameter.
    TooManyVertices { model: usize },
    /// The index count does not fit a 32-bit draw parameter.
    TooManyIndices { model: usize },
    /// An index refers to a vertex the model does not have.
    IndexOutOfRange { model: usize, position: usize, index: u32 },
}

pub open spec fn fits_u32(n: nat) -> bool {
    n <= u32::MAX as nat
}

/// Every index names one of the model's vertices.
pub open spec fn indices_in_range(vertex_count: nat, indices: Seq<u32>) -> bool {
    forall|j: int| 0 <= j < indices.len() ==> (#[trigger] indices[j]) < vertex_count
}

/// The model can be uploaded as it stands.
pub open spec fn model_valid(m: ModelSource) -> bool {
    &&& fits_u32(m.vertex_count as nat)
    &&& match m.indices {
        Some(ix) => fits_u32(ix@.len()) && indices_in_range(m.vertex_count as nat, ix@),
        None => true,
    }
}

/// The first position of an index that is out of range.
pub open spec fn first_bad_index(vertex_count: nat, indices: Seq<u32>, j: int) -> bool {
    &&& 0 <= j < indices.len()
    &&& indices[j] >= vertex_count
    &&& indices_in_range(vertex_count, indices.take(j))
}

/// The error reported for an invalid model at position `id`: the first of its
/// faults in the order vertex count, index count, index values.
pub open spec fn model_error(id: usize, m: ModelSource, e: GeometryError) -> bool {
    if !fits_u32(m.vertex_count as nat) {
        e == (GeometryError::TooManyVertices { model: id })
    } else {
        let ix = m.indices.unwrap()@;
        if !fits_u32(ix.len()) {
            e == (GeometryError::TooManyIndices { model: id })
        } else {
            e matches GeometryError::IndexOutOfRange { model, position, index } && model == id
                && first_bad_index(m.vertex_count as nat, ix, position as int) && index
                == ix[position as int]
        }
    }
}

/// The mesh record of a valid model at position `id`.
pub open spec fn mesh_of(id: usize, m: ModelSource) -> GpuMesh {
    GpuMesh {
        id,
        vertex_count: m.vertex_count as u32,
        index_count: match m.indices {
            Some(ix) => Some(ix@.len() as u32),
            None => None,
        },
    }
}

/// Checks one model and describes the buffers it will get.
pub fn check_model(id: usize, m: &ModelSource) -> (r: Result<GpuMesh, GeometryError>)
    ensures
        r is Ok <==> model_valid(*m),
        r matches Ok(g) ==> g == mesh_of(id, *m),
        r matches Err(e) ==> model_error(id, *m, e),
{
    if m.vertex_count > u32::MAX as usize {
        return Err(GeometryError::TooManyVertices { model: id });
    }
    match &m.indices {
        None => Ok(GpuMesh { id, vertex_count: m.vertex_count as u32, index_count: None }),
        Some(ix) => {
            if ix.len() > u32::MAX as usize {
                return Err(GeometryError::TooManyIndices { model: id });
            }
            let mut j: usize = 0;
            while j < ix.len()
                invariant
                    j <= ix@.len(),
                    m.indices == Some(*ix),
                    fits_u32(m.vertex_count as nat),
                    fits_u32(ix@.len()),
                    indices_in_range(m.vertex_count as nat, ix@.take(j as int)),
                decreases ix@.len() - j,
            {
                if ix[j] as usize >= m.vertex_count {
                    assert(ix@[j as int] >= m.vertex_count);
                    return Err(GeometryError::IndexOutOfRange { model: id, position: j, index: ix[j] });
                }
                assert(ix@.take(j as int + 1) =~= ix@.take(j as int).push(ix@[j as int]));
                j = j + 1;
            }
            assert(ix@.take(j as int) =~= ix@);
            Ok(GpuMesh { id, vertex_count: m.vertex_count as u32, index_count: Some(ix.len() as u32) })
        },
    }
}

/// Every model of the scene can be uploaded.
pub open spec fn scene_valid(models: Seq<ModelSource>) -> bool {
    forall|i: int| 0 <= i < models.len() ==> model_valid(#[trigger] models[i])
}

/// Checks every model of a scene, in order, and describes one vertex/index
/// buffer pair per model.
///
/// On success there is exactly one mesh per model, carrying that model's
/// position and counts; otherwise the error names the first invalid model.
pub fn upload_plan(models: &Vec<ModelSource>) -> (r: Result<Vec<GpuMesh>, GeometryError>)
    ensures
        r is Ok <==> scene_valid(models@),
        r matches Ok(meshes) ==> {
            &&& meshes@.len() == models@.len()
            &&& forall|i: int|
                0 <= i < models@.len() ==> #[trigger] meshes@[i] == mesh_of(i as usize, models@[i])
        },
        r matches Err(e) ==> exists|i: int|
            {
                &&& 0 <= i < models@.len()
                &&& scene_valid(models@.take(i))
                &&& !model_valid(#[trigger] models@[i])
                &&& model_error(i as usize, models@[i], e)
            },
{
    let mut meshes: Vec<GpuMesh> = Vec::new();
    let mut i: usize = 0;
    while i < models.len()
        invariant
            i <= models@.len(),
            meshes@.len() == i,
            scene_valid(models@.take(i as int)),
            forall|k: int| 0 <= k < i ==> #[trigger] meshes@[k] == mesh_of(k as usize, models@[k]),
        decreases models@.len() - i,
    {
        match check_model(i, &models[i]) {
            Ok(g) => {
                meshes.push(g);
            },
            Err(e) => {
                assert(models@[i as int] == models[i as int]);
                return Err(e);
            },
        }
        assert forall|k: int| 0 <= k < i + 1 implies model_valid(#[trigger] models@.take(i + 1)[k]) by {
            if k < i {
                assert(models@.take(i + 1)[k] == models@.take(i as int)[k]);
            }
        }
        i = i + 1;
    }
    assert(models@.take(i as int) =~= models@);
    Ok(meshes)
}

} // verus!
