use vstd::prelude::*;

use crate::region::Region;
use crate::voxel::Voxel;

verus! {

/// The error a volume reports for a write outside its region.
#[derive(Debug)]
pub struct PositionError {}

/// The value a read of a volume yields at `(x, y, z)`: the stored voxel
/// inside the region, the border value everywhere else.
pub open spec fn voxel_lookup<T: Voxel>(
    region: Region,
    data: Seq<T>,
    border: T,
    x: int,
    y: int,
    z: int,
) -> T {
    if region.contains_spec(x, y, z) {
        data[region.linear_index(x, y, z)]
    } else {
        border
    }
}

/// A store of voxels over a region, read through `get_voxel_at` and written
/// through `set_voxel_at`.  Reads never fail: outside the region they yield
/// the border value.
pub trait Volume<T: Voxel>: Sized {
    /// The region the volume stores voxels for.
    spec fn region_spec(&self) -> Region;

    /// The stored voxels: x varies fastest, z slowest.
    spec fn data_spec(&self) -> Seq<T>;

    /// The value reads outside the region yield.
    spec fn border_spec(&self) -> T;

    /// The region is well-formed and the stored data covers it.
    spec fn inv(&self) -> bool;

    proof fn lemma_inv_properties(&self)
        requires
            self.inv(),
        ensures
            self.region_spec().wf(),
            self.data_spec().len() == self.region_spec().volume_spec(),
    ;

    fn get_region(&self) -> (r: &Region)
        ensures
            *r == self.region_spec(),
    ;

    fn get_voxel_at(&self, x: i32, y: i32, z: i32) -> (r: T)
        requires
            self.inv(),
        ensures
            r == voxel_lookup(
                self.region_spec(),
                self.data_spec(),
                self.border_spec(),
                x as int,
                y as int,
                z as int,
            ),
    ;

    fn set_voxel_at(&mut self, x: i32, y: i32, z: i32, voxel: T) -> (r: Result<
        (),
        PositionError,
    >)
        requires
            old(self).inv(),
        ensures
            final(self).inv(),
            final(self).region_spec() == old(self).region_spec(),
            final(self).border_spec() == old(self).border_spec(),
            r is Ok <==> old(self).region_spec().contains_spec(x as int, y as int, z as int),
            r is Ok ==> final(self).data_spec() == old(self).data_spec().update(
                old(self).region_spec().linear_index(x as int, y as int, z as int),
                voxel,
            ),
            r is Err ==> final(self).data_spec() == old(self).data_spec(),
    ;

    fn calculate_size_in_bytes(&self) -> (r: usize)
        requires
            self.inv(),
            vstd::layout::size_of::<T>() * self.region_spec().volume_spec() <= usize::MAX,
        ensures
            r == vstd::layout::size_of::<T>() * self.region_spec().volume_spec(),
    ;

    fn get_border_value(&self) -> (r: T)
        ensures
            r == self.border_spec(),
    ;
}

} // verus!
