use gobs::cubic_surface_extractor::{CubicVertex, extract_cubic_mesh, extract_cubic_mesh_custom};
use gobs::mesh::{FaceArity, Mesh};
use gobs::raw_volume::RawVolume;
use gobs::raw_volume_sampler::RawVolumeSampler;
use gobs::region::Region;
use gobs::volume::Volume;

#[test]
fn basic_case() {
    let region = Region::cubic(16);
    let mut volume: RawVolume<i32> = RawVolume::new(region);
    volume.set_voxel_at(8, 8, 8, 1).unwrap();

    let mut sampler = RawVolumeSampler::new(&volume);
    let mesh = extract_cubic_mesh(&mut sampler, &Region::cubic(16), None, None).unwrap();

    assert_eq!(8, mesh.vertices().len());
    assert_eq!(36, mesh.indices().len());
}

#[test]
fn empty_store_gives_empty_mesh() {
    let region = Region::cubic(8);
    let volume: RawVolume<u8> = RawVolume::new(region);
    let mut sampler = RawVolumeSampler::new(&volume);
    let mesh = extract_cubic_mesh(&mut sampler, &Region::cubic(8), None, None).unwrap();
    assert_eq!(0, mesh.vertices().len());
    assert_eq!(0, mesh.indices().len());

    let mut sampler = RawVolumeSampler::new(&volume);
    let mesh =
        extract_cubic_mesh(&mut sampler, &Region::cubic(8), Some(FaceArity::Four), Some(false))
            .unwrap();
    assert_eq!(0, mesh.vertices().len());
    assert_eq!(0, mesh.indices().len());
}

#[test]
fn quiet_predicate_gives_empty_mesh() {
    let region = Region::cubic(4);
    let mut volume: RawVolume<i32> = RawVolume::new(region);
    for x in 0..4 {
        for y in 0..4 {
            for z in 0..4 {
                volume.set_voxel_at(x, y, z, 7).unwrap();
            }
        }
    }
    let mut sampler = RawVolumeSampler::new(&volume);
    let mut mesh: Mesh<CubicVertex<i32>> = Mesh::new(FaceArity::Three);
    let done = extract_cubic_mesh_custom(
        &mut sampler,
        &Region::cubic(4),
        &mut mesh,
        |_back: &i32, _front: &i32| None,
        true,
    );
    assert_eq!(Some(true), done);
    assert_eq!(0, mesh.vertices().len());
    assert_eq!(0, mesh.indices().len());
}

#[test]
fn distinct_materials_do_not_merge() {
    // four voxels in a row with materials R, G, B, R: faces meeting empty
    // space are emitted, nothing merges across differing materials, and no
    // vertex is shared across materials.  Each end cube shows five faces,
    // each middle cube four.
    let region = Region::cubic(16);
    let mut volume: RawVolume<i32> = RawVolume::new(region);
    volume.set_voxel_at(0, 1, 8, 1).unwrap();
    volume.set_voxel_at(1, 1, 8, 2).unwrap();
    volume.set_voxel_at(2, 1, 8, 3).unwrap();
    volume.set_voxel_at(3, 1, 8, 1).unwrap();

    let mut sampler = RawVolumeSampler::new(&volume);
    let mesh =
        extract_cubic_mesh(&mut sampler, &Region::cubic(16), Some(FaceArity::Three), Some(true))
            .unwrap();

    assert_eq!((5 + 4 + 4 + 5) * 2 * 3, mesh.indices().len());
    assert_eq!(32, mesh.vertices().len());
}

#[test]
fn solid_block_merges_to_twelve_triangles() {
    let region = Region::sized(4, 4, 4);
    let mut volume: RawVolume<i32> = RawVolume::new(region);
    for x in 0..4 {
        for y in 0..4 {
            for z in 0..4 {
                volume.set_voxel_at(x, y, z, 1).unwrap();
            }
        }
    }
    let mut sampler = RawVolumeSampler::new(&volume);
    let mesh = extract_cubic_mesh(
        &mut sampler,
        &Region::sized(4, 4, 4),
        Some(FaceArity::Three),
        Some(true),
    )
    .unwrap();

    assert_eq!(36, mesh.indices().len());
    assert_eq!(8, mesh.vertices().len());
}

#[test]
fn solid_block_unmerged_keeps_every_face() {
    let region = Region::sized(4, 4, 4);
    let mut volume: RawVolume<i32> = RawVolume::new(region);
    for x in 0..4 {
        for y in 0..4 {
            for z in 0..4 {
                volume.set_voxel_at(x, y, z, 1).unwrap();
            }
        }
    }
    let mut sampler = RawVolumeSampler::new(&volume);
    let mesh = extract_cubic_mesh(
        &mut sampler,
        &Region::sized(4, 4, 4),
        Some(FaceArity::Three),
        Some(false),
    )
    .unwrap();

    // 4 * 4 * 2 = 32 triangles per face direction, 6 directions
    assert_eq!(192 * 3, mesh.indices().len());
}

#[test]
fn two_voxel_box_merges_to_six_quads() {
    let region = Region::sized(2, 1, 1);
    let mut volume: RawVolume<i32> = RawVolume::new(region);
    volume.set_voxel_at(0, 0, 0, 1).unwrap();
    volume.set_voxel_at(1, 0, 0, 1).unwrap();

    let mut sampler = RawVolumeSampler::new(&volume);
    let mesh = extract_cubic_mesh(
        &mut sampler,
        &Region::sized(2, 1, 1),
        Some(FaceArity::Four),
        Some(true),
    )
    .unwrap();

    assert_eq!(6 * 4, mesh.indices().len());
}

#[test]
fn single_voxel_quads() {
    let region = Region::sized(1, 1, 1);
    let mut volume: RawVolume<i32> = RawVolume::new(region);
    volume.set_voxel_at(0, 0, 0, 1).unwrap();

    let mut sampler = RawVolumeSampler::new(&volume);
    let mesh = extract_cubic_mesh(
        &mut sampler,
        &Region::sized(1, 1, 1),
        Some(FaceArity::Four),
        Some(true),
    )
    .unwrap();

    assert_eq!(6 * 4, mesh.indices().len());
    assert_eq!(8, mesh.vertices().len());
}

#[test]
fn single_voxel_face_normals_cover_all_axes() {
    let region = Region::sized(3, 3, 3);
    let mut volume: RawVolume<i32> = RawVolume::new(region);
    volume.set_voxel_at(1, 1, 1, 1).unwrap();

    let mut sampler = RawVolumeSampler::new(&volume);
    let mesh = extract_cubic_mesh(
        &mut sampler,
        &Region::sized(3, 3, 3),
        Some(FaceArity::Four),
        Some(true),
    )
    .unwrap();

    assert_eq!(24, mesh.indices().len());
    let mut seen = [0usize; 6];
    for quad in mesh.indices().chunks(4) {
        let p: Vec<[i32; 3]> = quad
            .iter()
            .map(|&i| {
                let v = mesh.vertices()[i as usize].decode();
                [v.x as i32, v.y as i32, v.z as i32]
            })
            .collect();
        let a = [p[1][0] - p[0][0], p[1][1] - p[0][1], p[1][2] - p[0][2]];
        let b = [p[2][0] - p[0][0], p[2][1] - p[0][1], p[2][2] - p[0][2]];
        let n = [
            a[1] * b[2] - a[2] * b[1],
            a[2] * b[0] - a[0] * b[2],
            a[0] * b[1] - a[1] * b[0],
        ];
        match n {
            [1, 0, 0] => seen[0] += 1,
            [-1, 0, 0] => seen[1] += 1,
            [0, 1, 0] => seen[2] += 1,
            [0, -1, 0] => seen[3] += 1,
            [0, 0, 1] => seen[4] += 1,
            [0, 0, -1] => seen[5] += 1,
            _ => panic!("unexpected face normal {:?}", n),
        }
    }
    assert_eq!([1, 1, 1, 1, 1, 1], seen);
}

#[test]
fn two_sided_predicate_emits_both_facings() {
    // a custom predicate that emits a face whenever the two sides differ,
    // carrying the back side's material, sees every interface twice
    let region = Region::sized(2, 1, 1);
    let mut volume: RawVolume<i32> = RawVolume::new(region);
    volume.set_voxel_at(0, 0, 0, 1).unwrap();
    volume.set_voxel_at(1, 0, 0, 2).unwrap();

    let mut sampler = RawVolumeSampler::new(&volume);
    let mut mesh: Mesh<CubicVertex<i32>> = Mesh::new(FaceArity::Four);
    let done = extract_cubic_mesh_custom(
        &mut sampler,
        &Region::sized(2, 1, 1),
        &mut mesh,
        |back: &i32, front: &i32| {
            if *back != 0 && back != front {
                Some(*back)
            } else {
                None
            }
        },
        false,
    );
    assert_eq!(Some(true), done);
    // each voxel has 6 interfaces to a differing value, one face each
    assert_eq!(12 * 4, mesh.indices().len());
}

#[test]
fn four_color_row_two_sided_rule_gives_full_face_pairs() {
    // under a rule that fires whenever a solid back voxel differs from its
    // front neighbour, every interface of the row produces an independent
    // face pair, so each of the four cubes shows all six faces
    let region = Region::cubic(16);
    let mut volume: RawVolume<i32> = RawVolume::new(region);
    volume.set_voxel_at(0, 1, 8, 1).unwrap();
    volume.set_voxel_at(1, 1, 8, 2).unwrap();
    volume.set_voxel_at(2, 1, 8, 3).unwrap();
    volume.set_voxel_at(3, 1, 8, 1).unwrap();

    let mut sampler = RawVolumeSampler::new(&volume);
    let mut mesh: Mesh<CubicVertex<i32>> = Mesh::new(FaceArity::Three);
    let done = extract_cubic_mesh_custom(
        &mut sampler,
        &Region::cubic(16),
        &mut mesh,
        |back: &i32, front: &i32| {
            if *back != 0 && back != front {
                Some(*back)
            } else {
                None
            }
        },
        true,
    );
    assert_eq!(Some(true), done);
    assert_eq!(144, mesh.indices().len());
    assert_eq!(32, mesh.vertices().len());
}

#[test]
fn cubic_vertex_packs_and_decodes() {
    let v: CubicVertex<i32> = CubicVertex::new(3, 5, 7, 42);
    assert_eq!(3 + 5 * 0x100 + 7 * 0x10000, v.position);
    assert_eq!(42, v.data);
    let p = v.decode();
    assert_eq!(3, p.x);
    assert_eq!(5, p.y);
    assert_eq!(7, p.z);

    let w: CubicVertex<u8> = CubicVertex::new(255, 0, 254, 9);
    let q = w.decode();
    assert_eq!(255, q.x);
    assert_eq!(0, q.y);
    assert_eq!(254, q.z);
}

#[test]
fn extracted_mesh_offset_is_lower_corner() {
    let region = Region::new(
        gobs::vec3::Vec3::new(2, 3, 4),
        gobs::vec3::Vec3::new(5, 6, 7),
    );
    let mut volume: RawVolume<i32> = RawVolume::new(region);
    volume.set_voxel_at(3, 4, 5, 1).unwrap();

    let mut sampler = RawVolumeSampler::new(&volume);
    let mesh = extract_cubic_mesh(&mut sampler, &region, None, None).unwrap();
    let offset = mesh.offset();
    assert_eq!(2, offset.x);
    assert_eq!(3, offset.y);
    assert_eq!(4, offset.z);
    assert_eq!(8, mesh.vertices().len());
    assert_eq!(36, mesh.indices().len());
}
