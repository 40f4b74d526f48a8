use gobs::raw_volume::RawVolume;
use gobs::region::Region;
use gobs::vec3::Vec3;
use gobs::volume::Volume;
use gobs::voxel::Voxel;

#[test]
fn region_dimensions_and_volume() {
    let region = Region::new(Vec3::new(-1, 0, 2), Vec3::new(3, 0, 4));
    assert_eq!(5, region.get_width());
    assert_eq!(1, region.get_height());
    assert_eq!(3, region.get_depth());
    assert_eq!(5, region.get_area());
    assert_eq!(15, region.get_volume());

    let cube = Region::cubic(16);
    assert_eq!(16, cube.get_width());
    assert_eq!(16, cube.get_height());
    assert_eq!(16, cube.get_depth());
    assert_eq!(256, cube.get_area());
    assert_eq!(4096, cube.get_volume());

    let sized = Region::sized(4, 2, 3);
    assert_eq!(4, sized.get_width());
    assert_eq!(2, sized.get_height());
    assert_eq!(3, sized.get_depth());
    assert_eq!(24, sized.get_volume());
}

#[test]
fn region_containment() {
    let region = Region::cubic(4);
    assert!(region.contains_point(0, 0, 0));
    assert!(region.contains_point(3, 3, 3));
    assert!(!region.contains_point(4, 0, 0));
    assert!(!region.contains_point(0, -1, 0));

    assert!(region.contains_point_in_x(2));
    assert!(!region.contains_point_in_x(4));
    assert!(region.contains_point_in_y(0));
    assert!(!region.contains_point_in_y(-1));
    assert!(region.contains_point_in_z(3));
    assert!(!region.contains_point_in_z(9));

    assert!(region.contains_point_excluding_boundary(1, 1, 1, 1));
    assert!(!region.contains_point_excluding_boundary(0, 1, 1, 1));
    assert!(!region.contains_point_excluding_boundary(1, 3, 1, 1));

    let corner = region.get_lower_corner();
    assert_eq!(0, corner.x);
    assert_eq!(0, corner.y);
    assert_eq!(0, corner.z);
}

#[test]
fn raw_volume_reads_and_writes() {
    let region = Region::cubic(3);
    let mut volume: RawVolume<u16> = RawVolume::new(region);

    assert_eq!(0, volume.get_voxel_at(1, 1, 1));
    volume.set_voxel_at(1, 2, 0, 77).unwrap();
    assert_eq!(77, volume.get_voxel_at(1, 2, 0));
    assert_eq!(0, volume.get_voxel_at(0, 0, 0));

    // the data is laid out x fastest, z slowest
    let data = volume.get_data();
    assert_eq!(27, data.len());
    assert_eq!(77, data[1 + 2 * 3]);
}

#[test]
fn writes_outside_the_region_fail_and_change_nothing() {
    let region = Region::cubic(2);
    let mut volume: RawVolume<i32> = RawVolume::new(region);
    assert!(volume.set_voxel_at(2, 0, 0, 5).is_err());
    assert!(volume.set_voxel_at(0, -1, 0, 5).is_err());
    assert!(volume.set_voxel_at(0, 0, 0, 5).is_ok());
    for z in 0..2 {
        for y in 0..2 {
            for x in 0..2 {
                let expected = if (x, y, z) == (0, 0, 0) { 5 } else { 0 };
                assert_eq!(expected, volume.get_voxel_at(x, y, z));
            }
        }
    }
}

#[test]
fn volume_reports_region_border_and_size() {
    let region = Region::cubic(2);
    let mut volume: RawVolume<i32> = RawVolume::new(region);
    assert_eq!(0, volume.get_border_value());
    volume.set_border_value(42);
    assert_eq!(42, volume.get_border_value());
    assert_eq!(42, volume.get_voxel_at(-5, 0, 0));

    let reported = volume.get_region();
    assert_eq!(0, reported.lower_x);
    assert_eq!(1, reported.upper_x);

    assert_eq!(8 * core::mem::size_of::<i32>(), volume.calculate_size_in_bytes());
}

#[test]
fn integer_voxels_are_empty_exactly_at_zero() {
    assert!(0u8.is_empty());
    assert!(!1u8.is_empty());
    assert!(0u16.is_empty());
    assert!(!7u16.is_empty());
    assert!(0u32.is_empty());
    assert!(!9u32.is_empty());
    assert!(0u64.is_empty());
    assert!(!2u64.is_empty());
    assert!(0u128.is_empty());
    assert!(!3u128.is_empty());
    assert!(0usize.is_empty());
    assert!(!4usize.is_empty());
    assert!(0i8.is_empty());
    assert!(!(-1i8).is_empty());
    assert!(0i16.is_empty());
    assert!(!(-2i16).is_empty());
    assert!(0i32.is_empty());
    assert!(!5i32.is_empty());
    assert!(0i64.is_empty());
    assert!(!(-6i64).is_empty());
    assert!(0i128.is_empty());
    assert!(!8i128.is_empty());
    assert!(0isize.is_empty());
    assert!(!(-9isize).is_empty());
}
