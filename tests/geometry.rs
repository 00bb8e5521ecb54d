use rt_renderer::geometry::{check_model, upload_plan, GeometryError, GpuMesh, ModelSource};

fn triangle() -> ModelSource {
    ModelSource { vertex_count: 3, indices: Some(vec![0, 1, 2]) }
}

#[test]
fn triangle_uploads_one_mesh_of_three_and_three() {
    let meshes = upload_plan(&vec![triangle()]).unwrap();
    assert_eq!(meshes, vec![GpuMesh { id: 0, vertex_count: 3, index_count: Some(3) }]);
}

#[test]
fn one_mesh_per_model_in_order() {
    let models = vec![
        triangle(),
        ModelSource { vertex_count: 4, indices: None },
        ModelSource { vertex_count: 8, indices: Some(vec![7, 0, 3, 3, 5, 6]) },
    ];
    let meshes = upload_plan(&models).unwrap();
    assert_eq!(meshes.len(), models.len());
    assert_eq!(meshes[1], GpuMesh { id: 1, vertex_count: 4, index_count: None });
    assert_eq!(meshes[2], GpuMesh { id: 2, vertex_count: 8, index_count: Some(6) });
}

#[test]
fn empty_scene_uploads_nothing() {
    assert_eq!(upload_plan(&vec![]).unwrap(), vec![]);
}

#[test]
fn index_equal_to_vertex_count_is_refused() {
    let models = vec![triangle(), ModelSource { vertex_count: 3, indices: Some(vec![0, 2, 3, 4]) }];
    assert_eq!(
        upload_plan(&models),
        Err(GeometryError::IndexOutOfRange { model: 1, position: 2, index: 3 })
    );
}

#[test]
fn first_invalid_model_is_reported() {
    let models = vec![
        ModelSource { vertex_count: 1, indices: Some(vec![1]) },
        ModelSource { vertex_count: 1, indices: Some(vec![9]) },
    ];
    assert_eq!(
        upload_plan(&models),
        Err(GeometryError::IndexOutOfRange { model: 0, position: 0, index: 1 })
    );
}

#[test]
fn vertex_count_beyond_u32_is_refused() {
    let m = ModelSource { vertex_count: (u32::MAX as usize) + 1, indices: None };
    assert_eq!(check_model(5, &m), Err(GeometryError::TooManyVertices { model: 5 }));
}

#[test]
fn largest_vertex_count_is_accepted() {
    let m = ModelSource { vertex_count: u32::MAX as usize, indices: Some(vec![u32::MAX - 1]) };
    assert_eq!(
        check_model(0, &m),
        Ok(GpuMesh { id: 0, vertex_count: u32::MAX, index_count: Some(1) })
    );
}

#[test]
fn model_without_vertices_accepts_no_index() {
    let m = ModelSource { vertex_count: 0, indices: Some(vec![0]) };
    assert_eq!(
        check_model(0, &m),
        Err(GeometryError::IndexOutOfRange { model: 0, position: 0, index: 0 })
    );
}
