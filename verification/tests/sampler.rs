use gobs::raw_volume::RawVolume;
use gobs::raw_volume_sampler::RawVolumeSampler;
use gobs::region::Region;
use gobs::sampler::Sampler;
use gobs::volume::Volume;

#[test]
fn sampler_reads_the_voxel_under_the_cursor() {
    let region = Region::cubic(3);
    let mut volume: RawVolume<i32> = RawVolume::new(region);
    volume.set_voxel_at(0, 0, 0, 1).unwrap();
    volume.set_voxel_at(2, 1, 0, 7).unwrap();

    let mut sampler = RawVolumeSampler::new(&volume);
    assert_eq!(1, sampler.get_voxel());
    sampler.set_position(2, 1, 0);
    assert_eq!(7, sampler.get_voxel());
    assert!(sampler.is_current_position_valid());
}

#[test]
fn step_and_step_back_returns_to_the_same_state() {
    let region = Region::cubic(4);
    let mut volume: RawVolume<i32> = RawVolume::new(region);
    for x in 0..4 {
        for y in 0..4 {
            for z in 0..4 {
                volume.set_voxel_at(x, y, z, x + 10 * y + 100 * z).unwrap();
            }
        }
    }
    let mut sampler = RawVolumeSampler::new(&volume);
    sampler.set_position(1, 2, 3);
    let voxel = sampler.get_voxel();

    sampler.move_positive_x();
    sampler.move_negative_x();
    assert_eq!(voxel, sampler.get_voxel());
    sampler.move_positive_y();
    sampler.move_negative_y();
    assert_eq!(voxel, sampler.get_voxel());
    sampler.move_positive_z();
    sampler.move_negative_z();
    assert_eq!(voxel, sampler.get_voxel());

    let pos = sampler.get_position();
    assert_eq!(1, pos.x);
    assert_eq!(2, pos.y);
    assert_eq!(3, pos.z);

    // the round trip holds at the region's edge too
    sampler.set_position(3, 2, 3);
    let edge_voxel = sampler.get_voxel();
    sampler.move_positive_x();
    assert!(!sampler.is_current_position_valid());
    sampler.move_negative_x();
    assert!(sampler.is_current_position_valid());
    assert_eq!(edge_voxel, sampler.get_voxel());
}

#[test]
fn peeks_return_neighbours_inside_the_region() {
    let region = Region::cubic(3);
    let mut volume: RawVolume<i32> = RawVolume::new(region);
    for x in 0..3 {
        for y in 0..3 {
            for z in 0..3 {
                volume.set_voxel_at(x, y, z, 1 + x + 10 * y + 100 * z).unwrap();
            }
        }
    }
    let mut sampler = RawVolumeSampler::new(&volume);
    sampler.set_position(1, 1, 1);
    assert_eq!(1 + 1 + 10 + 100, sampler.peek_voxel_0px0py0pz());
    assert_eq!(1 + 0 + 10 + 100, sampler.peek_voxel_1nx0py0pz());
    assert_eq!(1 + 2 + 10 + 100, sampler.peek_voxel_1px0py0pz());
    assert_eq!(1 + 1 + 0 + 100, sampler.peek_voxel_0px1ny0pz());
    assert_eq!(1 + 1 + 20 + 100, sampler.peek_voxel_0px1py0pz());
    assert_eq!(1 + 1 + 10 + 0, sampler.peek_voxel_0px0py1nz());
    assert_eq!(1 + 1 + 10 + 200, sampler.peek_voxel_0px0py1pz());
    assert_eq!(1 + 0 + 0 + 0, sampler.peek_voxel_1nx1ny1nz());
    assert_eq!(1 + 2 + 20 + 200, sampler.peek_voxel_1px1py1pz());
    assert_eq!(1 + 2 + 0 + 200, sampler.peek_voxel_1px1ny1pz());
    assert_eq!(1 + 0 + 20 + 0, sampler.peek_voxel_1nx1py1nz());
}

#[test]
fn out_of_bounds_reads_yield_the_border_value() {
    let region = Region::cubic(2);
    let mut volume: RawVolume<i32> = RawVolume::new(region);
    for x in 0..2 {
        for y in 0..2 {
            for z in 0..2 {
                volume.set_voxel_at(x, y, z, 5).unwrap();
            }
        }
    }
    volume.set_border_value(-9);

    // reads through the volume
    assert_eq!(-9, volume.get_voxel_at(-1, 0, 0));
    assert_eq!(-9, volume.get_voxel_at(0, 2, 0));
    assert_eq!(-9, volume.get_voxel_at(0, 0, 17));
    assert_eq!(5, volume.get_voxel_at(1, 1, 1));

    // a cursor parked outside the region
    let mut sampler = RawVolumeSampler::new(&volume);
    sampler.set_position(-3, 0, 0);
    assert_eq!(-9, sampler.get_voxel());
    assert!(!sampler.is_current_position_valid());
    assert_eq!(-9, sampler.peek_voxel_0px0py0pz());
    assert_eq!(-9, sampler.peek_voxel_1px0py0pz());
    assert_eq!(-9, sampler.peek_voxel_1nx1ny1nz());

    // a peek that would cross the region's edge
    sampler.set_position(0, 0, 0);
    assert_eq!(-9, sampler.peek_voxel_1nx0py0pz());
    assert_eq!(-9, sampler.peek_voxel_0px1ny0pz());
    assert_eq!(-9, sampler.peek_voxel_0px0py1nz());
    assert_eq!(5, sampler.peek_voxel_1px0py0pz());
}

#[test]
fn sampler_starts_at_the_lower_corner() {
    let region = Region::new(
        gobs::vec3::Vec3::new(-2, 5, 1),
        gobs::vec3::Vec3::new(0, 6, 3),
    );
    let mut volume: RawVolume<i32> = RawVolume::new(region);
    volume.set_voxel_at(-2, 5, 1, 3).unwrap();

    let sampler = RawVolumeSampler::new(&volume);
    let pos = sampler.get_position();
    assert_eq!(-2, pos.x);
    assert_eq!(5, pos.y);
    assert_eq!(1, pos.z);
    assert_eq!(3, sampler.get_voxel());
}
