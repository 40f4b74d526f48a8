use vstd::prelude::*;

use crate::region::Region;
use crate::vec3::Vec3;
use crate::volume::voxel_lookup;
use crate::voxel::Voxel;

verus! {

/// Whether a move by `d` along one axis with bounds `lower ..= upper` stays
/// inside the bounds, starting from `v`.
pub open spec fn can_step(lower: int, upper: int, v: int, d: int) -> bool {
    if d < 0 {
        v > lower
    } else if d > 0 {
        v < upper
    } else {
        true
    }
}

/// What a relative peek from `(x, y, z)` yields: the neighbour's voxel when
/// the cursor is inside the region and every stepped axis stays inside;
/// the border value otherwise.
pub open spec fn peek_lookup<T: Voxel>(
    region: Region,
    data: Seq<T>,
    border: T,
    x: int,
    y: int,
    z: int,
    dx: int,
    dy: int,
    dz: int,
) -> T {
    if region.contains_spec(x, y, z) && can_step(region.lower_x as int, region.upper_x as int, x, dx)
        && can_step(region.lower_y as int, region.upper_y as int, y, dy) && can_step(
        region.lower_z as int,
        region.upper_z as int,
        z,
        dz,
    ) {
        voxel_lookup(region, data, border, x + dx, y + dy, z + dz)
    } else {
        border
    }
}

/// Outside the region, the cursor read and every relative peek yield the
/// border value.
pub proof fn lemma_oob_reads_border<T: Voxel>(
    region: Region,
    data: Seq<T>,
    border: T,
    x: int,
    y: int,
    z: int,
    dx: int,
    dy: int,
    dz: int,
)
    requires
        !region.contains_spec(x, y, z),
    ensures
        voxel_lookup(region, data, border, x, y, z) == border,
        peek_lookup(region, data, border, x, y, z, dx, dy, dz) == border,
{
}

/// A movable cursor over a voxel store.  It answers the voxel under the
/// cursor and all 26 unit-neighbour peeks in constant time; reads that
/// would leave the store's region yield the border value.
pub trait Sampler<T: Voxel>: Sized {
    /// The region of the store the cursor walks over.
    spec fn region_spec(&self) -> Region;

    /// The store's voxels: x varies fastest, z slowest.
    spec fn data_spec(&self) -> Seq<T>;

    /// The value reads outside the region yield.
    spec fn border_spec(&self) -> T;

    /// The cursor position.
    spec fn x_spec(&self) -> int;

    spec fn y_spec(&self) -> int;

    spec fn z_spec(&self) -> int;

    /// The cursor's cached state agrees with its position and its store.
    spec fn wf(&self) -> bool;

    proof fn lemma_wf_properties(&self)
        requires
            self.wf(),
        ensures
            self.region_spec().wf(),
            self.data_spec().len() == self.region_spec().volume_spec(),
    ;

    fn get_position(&self) -> (r: Vec3<i32>)
        ensures
            r.x == self.x_spec(),
            r.y == self.y_spec(),
            r.z == self.z_spec(),
    ;

    fn get_voxel(&self) -> (r: T)
        requires
            self.wf(),
        ensures
            r == voxel_lookup(
                self.region_spec(),
                self.data_spec(),
                self.border_spec(),
                self.x_spec(),
                self.y_spec(),
                self.z_spec(),
            ),
    ;

    fn set_position(&mut self, x: i32, y: i32, z: i32)
        requires
            old(self).wf(),
        ensures
            final(self).wf(),
            final(self).x_spec() == x,
            final(self).y_spec() == y,
            final(self).z_spec() == z,
            final(self).region_spec() == old(self).region_spec(),
            final(self).data_spec() == old(self).data_spec(),
            final(self).border_spec() == old(self).border_spec(),
    ;

    fn move_positive_x(&mut self)
        requires
            old(self).wf(),
            old(self).x_spec() < i32::MAX,
        ensures
            final(self).wf(),
            final(self).x_spec() == old(self).x_spec() + 1,
            final(self).y_spec() == old(self).y_spec(),
            final(self).z_spec() == old(self).z_spec(),
            final(self).region_spec() == old(self).region_spec(),
            final(self).data_spec() == old(self).data_spec(),
            final(self).border_spec() == old(self).border_spec(),
    ;

    fn move_positive_y(&mut self)
        requires
            old(self).wf(),
            old(self).y_spec() < i32::MAX,
        ensures
            final(self).wf(),
            final(self).x_spec() == old(self).x_spec(),
            final(self).y_spec() == old(self).y_spec() + 1,
            final(self).z_spec() == old(self).z_spec(),
            final(self).region_spec() == old(self).region_spec(),
            final(self).data_spec() == old(self).data_spec(),
            final(self).border_spec() == old(self).border_spec(),
    ;

    fn move_positive_z(&mut self)
        requires
            old(self).wf(),
            old(self).z_spec() < i32::MAX,
        ensures
            final(self).wf(),
            final(self).x_spec() == old(self).x_spec(),
            final(self).y_spec() == old(self).y_spec(),
            final(self).z_spec() == old(self).z_spec() + 1,
            final(self).region_spec() == old(self).region_spec(),
            final(self).data_spec() == old(self).data_spec(),
            final(self).border_spec() == old(self).border_spec(),
    ;

    fn move_negative_x(&mut self)
        requires
            old(self).wf(),
            old(self).x_spec() > i32::MIN,
        ensures
            final(self).wf(),
            final(self).x_spec() == old(self).x_spec() - 1,
            final(self).y_spec() == old(self).y_spec(),
            final(self).z_spec() == old(self).z_spec(),
            final(self).region_spec() == old(self).region_spec(),
            final(self).data_spec() == old(self).data_spec(),
            final(self).border_spec() == old(self).border_spec(),
    ;

    fn move_negative_y(&mut self)
        requires
            old(self).wf(),
            old(self).y_spec() > i32::MIN,
        ensures
            final(self).wf(),
            final(self).x_spec() == old(self).x_spec(),
            final(self).y_spec() == old(self).y_spec() - 1,
            final(self).z_spec() == old(self).z_spec(),
            final(self).region_spec() == old(self).region_spec(),
            final(self).data_spec() == old(self).data_spec(),
            final(self).border_spec() == old(self).border_spec(),
    ;

    fn move_negative_z(&mut self)
        requires
            old(self).wf(),
            old(self).z_spec() > i32::MIN,
        ensures
            final(self).wf(),
            final(self).x_spec() == old(self).x_spec(),
            final(self).y_spec() == old(self).y_spec(),
            final(self).z_spec() == old(self).z_spec() - 1,
            final(self).region_spec() == old(self).region_spec(),
            final(self).data_spec() == old(self).data_spec(),
            final(self).border_spec() == old(self).border_spec(),
    ;

    fn is_current_position_valid(&self) -> (r: bool)
        requires
            self.wf(),
        ensures
            r == self.region_spec().contains_spec(self.x_spec(), self.y_spec(), self.z_spec()),
    ;

    fn peek_voxel_1nx1ny1nz(&self) -> (r: T)
        requires
            self.wf(),
        ensures
            r == peek_lookup(
                self.region_spec(),
                self.data_spec(),
                self.border_spec(),
                self.x_spec(),
                self.y_spec(),
                self.z_spec(),
                -1,
                -1,
                -1,
            ),
    ;

    fn peek_voxel_1nx1ny0pz(&self) -> (r: T)
        requires
            self.wf(),
        ensures
            r == peek_lookup(
                self.region_spec(),
                self.data_spec(),
                self.border_spec(),
                self.x_spec(),
                self.y_spec(),
                self.z_spec(),
                -1,
                -1,
                0,
            ),
    ;

    fn peek_voxel_1nx1ny1pz(&self) -> (r: T)
        requires
            self.wf(),
        ensures
            r == peek_lookup(
                self.region_spec(),
                self.data_spec(),
                self.border_spec(),
                self.x_spec(),
                self.y_spec(),
                self.z_spec(),
                -1,
                -1,
                1,
            ),
    ;

    fn peek_voxel_1nx0py1nz(&self) -> (r: T)
        requires
            self.wf(),
        ensures
            r == peek_lookup(
                self.region_spec(),
                self.data_spec(),
                self.border_spec(),
                self.x_spec(),
                self.y_spec(),
                self.z_spec(),
                -1,
                0,
                -1,
            ),
    ;

    fn peek_voxel_1nx0py0pz(&self) -> (r: T)
        requires
            self.wf(),
        ensures
            r == peek_lookup(
                self.region_spec(),
                self.data_spec(),
                self.border_spec(),
                self.x_spec(),
                self.y_spec(),
                self.z_spec(),
                -1,
                0,
                0,
            ),
    ;

    fn peek_voxel_1nx0py1pz(&self) -> (r: T)
        requires
            self.wf(),
        ensures
            r == peek_lookup(
                self.region_spec(),
                self.data_spec(),
                self.border_spec(),
                self.x_spec(),
                self.y_spec(),
                self.z_spec(),
                -1,
                0,
                1,
            ),
    ;

    fn peek_voxel_1nx1py1nz(&self) -> (r: T)
        requires
            self.wf(),
        ensures
            r == peek_lookup(
                self.region_spec(),
                self.data_spec(),
                self.border_spec(),
                self.x_spec(),
                self.y_spec(),
                self.z_spec(),
                -1,
                1,
                -1,
            ),
    ;

    fn peek_voxel_1nx1py0pz(&self) -> (r: T)
        requires
            self.wf(),
        ensures
            r == peek_lookup(
                self.region_spec(),
                self.data_spec(),
                self.border_spec(),
                self.x_spec(),
                self.y_spec(),
                self.z_spec(),
                -1,
                1,
                0,
            ),
    ;

    fn peek_voxel_1nx1py1pz(&self) -> (r: T)
        requires
            self.wf(),
        ensures
            r == peek_lookup(
                self.region_spec(),
                self.data_spec(),
                self.border_spec(),
                self.x_spec(),
                self.y_spec(),
                self.z_spec(),
                -1,
                1,
                1,
            ),
    ;

    fn peek_voxel_0px1ny1nz(&self) -> (r: T)
        requires
            self.wf(),
        ensures
            r == peek_lookup(
                self.region_spec(),
                self.data_spec(),
                self.border_spec(),
                self.x_spec(),
                self.y_spec(),
                self.z_spec(),
                0,
                -1,
                -1,
            ),
    ;

    fn peek_voxel_0px1ny0pz(&self) -> (r: T)
        requires
            self.wf(),
        ensures
            r == peek_lookup(
                self.region_spec(),
                self.data_spec(),
                self.border_spec(),
                self.x_spec(),
                self.y_spec(),
                self.z_spec(),
                0,
                -1,
                0,
            ),
    ;

    fn peek_voxel_0px1ny1pz(&self) -> (r: T)
        requires
            self.wf(),
        ensures
            r == peek_lookup(
                self.region_spec(),
                self.data_spec(),
                self.border_spec(),
                self.x_spec(),
                self.y_spec(),
                self.z_spec(),
                0,
                -1,
                1,
            ),
    ;

    fn peek_voxel_0px0py1nz(&self) -> (r: T)
        requires
            self.wf(),
        ensures
            r == peek_lookup(
                self.region_spec(),
                self.data_spec(),
                self.border_spec(),
                self.x_spec(),
                self.y_spec(),
                self.z_spec(),
                0,
                0,
                -1,
            ),
    ;

    fn peek_voxel_0px0py0pz(&self) -> (r: T)
        requires
            self.wf(),
        ensures
            r == peek_lookup(
                self.region_spec(),
                self.data_spec(),
                self.border_spec(),
                self.x_spec(),
                self.y_spec(),
                self.z_spec(),
                0,
                0,
                0,
            ),
    ;

    fn peek_voxel_0px0py1pz(&self) -> (r: T)
        requires
            self.wf(),
        ensures
            r == peek_lookup(
                self.region_spec(),
                self.data_spec(),
                self.border_spec(),
                self.x_spec(),
                self.y_spec(),
                self.z_spec(),
                0,
                0,
                1,
            ),
    ;

    fn peek_voxel_0px1py1nz(&self) -> (r: T)
        requires
            self.wf(),
        ensures
            r == peek_lookup(
                self.region_spec(),
                self.data_spec(),
                self.border_spec(),
                self.x_spec(),
                self.y_spec(),
                self.z_spec(),
                0,
                1,
                -1,
            ),
    ;

    fn peek_voxel_0px1py0pz(&self) -> (r: T)
        requires
            self.wf(),
        ensures
            r == peek_lookup(
                self.region_spec(),
                self.data_spec(),
                self.border_spec(),
                self.x_spec(),
                self.y_spec(),
                self.z_spec(),
                0,
                1,
                0,
            ),
    ;

    fn peek_voxel_0px1py1pz(&self) -> (r: T)
        requires
            self.wf(),
        ensures
            r == peek_lookup(
                self.region_spec(),
                self.data_spec(),
                self.border_spec(),
                self.x_spec(),
                self.y_spec(),
                self.z_spec(),
                0,
                1,
                1,
            ),
    ;

    fn peek_voxel_1px1ny1nz(&self) -> (r: T)
        requires
            self.wf(),
        ensures
            r == peek_lookup(
                self.region_spec(),
                self.data_spec(),
                self.border_spec(),
                self.x_spec(),
                self.y_spec(),
                self.z_spec(),
                1,
                -1,
                -1,
            ),
    ;

    fn peek_voxel_1px1ny0pz(&self) -> (r: T)
        requires
            self.wf(),
        ensures
            r == peek_lookup(
                self.region_spec(),
                self.data_spec(),
                self.border_spec(),
                self.x_spec(),
                self.y_spec(),
                self.z_spec(),
                1,
                -1,
                0,
            ),
    ;

    fn peek_voxel_1px1ny1pz(&self) -> (r: T)
        requires
            self.wf(),
        ensures
            r == peek_lookup(
                self.region_spec(),
                self.data_spec(),
                self.border_spec(),
                self.x_spec(),
                self.y_spec(),
                self.z_spec(),
                1,
                -1,
                1,
            ),
    ;

    fn peek_voxel_1px0py1nz(&self) -> (r: T)
        requires
            self.wf(),
        ensures
            r == peek_lookup(
                self.region_spec(),
                self.data_spec(),
                self.border_spec(),
                self.x_spec(),
                self.y_spec(),
                self.z_spec(),
                1,
                0,
                -1,
            ),
    ;

    fn peek_voxel_1px0py0pz(&self) -> (r: T)
        requires
            self.wf(),
        ensures
            r == peek_lookup(
                self.region_spec(),
                self.data_spec(),
                self.border_spec(),
                self.x_spec(),
                self.y_spec(),
                self.z_spec(),
                1,
                0,
                0,
            ),
    ;

    fn peek_voxel_1px0py1pz(&self) -> (r: T)
        requires
            self.wf(),
        ensures
            r == peek_lookup(
                self.region_spec(),
                self.data_spec(),
                self.border_spec(),
                self.x_spec(),
                self.y_spec(),
                self.z_spec(),
                1,
                0,
                1,
            ),
    ;

    fn peek_voxel_1px1py1nz(&self) -> (r: T)
        requires
            self.wf(),
        ensures
            r == peek_lookup(
                self.region_spec(),
                self.data_spec(),
                self.border_spec(),
                self.x_spec(),
                self.y_spec(),
                self.z_spec(),
                1,
                1,
                -1,
            ),
    ;

    fn peek_voxel_1px1py0pz(&self) -> (r: T)
        requires
            self.wf(),
        ensures
            r == peek_lookup(
                self.region_spec(),
                self.data_spec(),
                self.border_spec(),
                self.x_spec(),
                self.y_spec(),
                self.z_spec(),
                1,
                1,
                0,
            ),
    ;

    fn peek_voxel_1px1py1pz(&self) -> (r: T)
        requires
            self.wf(),
        ensures
            r == peek_lookup(
                self.region_spec(),
                self.data_spec(),
                self.border_spec(),
                self.x_spec(),
                self.y_spec(),
                self.z_spec(),
                1,
                1,
                1,
            ),
    ;
}

} // verus!
