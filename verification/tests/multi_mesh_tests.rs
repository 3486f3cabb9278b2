use voxel_game::render::multi_mesh::{MultiMeshInfo, Profiles, RangeInfo};

fn mesh(index_count: u32, indices_start: u32, vertices_start: u32) -> MultiMeshInfo {
    MultiMeshInfo::placed(
        RangeInfo { start: vertices_start, size: 4 * 24 },
        RangeInfo { start: indices_start, size: index_count * 4 },
        index_count,
    )
}

#[test]
fn a_single_profile_answers_every_index() {
    let mut p: Profiles<&str> = Profiles::new("indirect-0");
    p.record_mesh_info(mesh(36, 400, 960), 5, 24);
    assert_eq!(p.get(0).indirect_data.len(), 1);
    assert_eq!(p.get(9).buffer, "indirect-0");
    p.record_mesh_info(mesh(0, 0, 0), 0, 24);
    assert_eq!(p.get(0).indirect_data.len(), 1);
    let upload = p.update_profile(3).unwrap();
    assert_eq!(upload.len(), 1);
    assert_eq!((upload[0].first_index, upload[0].vertex_offset), (100, 40));
    assert_eq!(p.get_profile_draw_count(0), 1);
    assert!(p.update_profile(0).is_none());
    assert_eq!(p.get_profile_draw_count(0), 1);
}

#[test]
fn added_profiles_get_their_own_index() {
    let mut p: Profiles<u32> = Profiles::new(10);
    assert_eq!(p.create_profile(11), 1);
    assert_eq!(p.create_profile(12), 2);
    p.record_mesh_info(mesh(6, 0, 0), 2, 24);
    p.record_mesh_info(mesh(6, 24, 48), 2, 24);
    assert_eq!(p.get(0).indirect_data.len(), 0);
    assert_eq!(p.get(2).indirect_data.len(), 2);
    assert_eq!(p.get(1).buffer, 11);
    assert_eq!(p.update_profile(2).unwrap().len(), 2);
    assert_eq!(p.get_profile_draw_count(2), 2);
    assert_eq!(p.get_profile_draw_count(1), 0);
}

#[test]
fn an_unplaced_mesh_records_no_draw() {
    let m = MultiMeshInfo::new();
    assert_eq!(m.index_count(), 0);
    assert_eq!(m.vertices_range(), RangeInfo::empty());
    assert_eq!(m.indices_range(), RangeInfo { start: 0, size: 0 });
    let mut p: Profiles<u8> = Profiles::new(0);
    p.record_mesh_info(m, 0, 24);
    assert!(p.update_profile(0).is_none());
}

#[test]
fn profile_indices_are_checked() {
    let mut p: Profiles<u8> = Profiles::new(0);
    assert!(p.has_profile(0));
    assert!(p.has_profile(7));
    p.create_profile(1);
    assert!(p.has_profile(1));
    assert!(!p.has_profile(2));
}
