use vstd::prelude::*;

use crate::region::Region;
use crate::volume::{PositionError, Volume};
use crate::voxel::Voxel;

verus! {

/// A dense voxel store: one voxel for every position of its region, laid
/// out with x varying fastest and z slowest, plus a border value that every
/// read outside the region yields.
pub struct RawVolume<T: Voxel> {
    pub data: Vec<T>,
    pub border_value: T,
    pub valid_region: Region,
}

impl<T: Voxel> RawVolume<T> {
    /// The region is well-formed and the data covers it exactly.
    pub open spec fn wf(&self) -> bool {
        &&& self.valid_region.wf()
        &&& self.data@.len() == self.valid_region.volume_spec()
    }

    /// A volume sized to `region`, filled with the default voxel, with the
    /// default voxel as its border value.
    pub fn new(region: Region) -> (r: Self)
        requires
            region.wf(),
        ensures
            r.wf(),
            r.valid_region == region,
            r.border_value == T::default_spec(),
            r.data@.len() == region.volume_spec(),
            forall|i: int| 0 <= i < r.data@.len() ==> r.data@[i] == T::default_spec(),
    {
        let n = region.get_volume();
        let mut data: Vec<T> = Vec::new();
        let mut i: usize = 0;
        while i < n as usize
            invariant
                n == region.volume_spec(),
                i == data@.len(),
                i <= n as usize,
                forall|j: int| 0 <= j < data@.len() ==> data@[j] == T::default_spec(),
            decreases n as usize - i,
        {
            data.push(T::default_value());
            i = i + 1;
        }
        RawVolume { data, border_value: T::default_value(), valid_region: region }
    }

    /// The offset of `(x, y, z)` in the data array, or `None` outside the
    /// region.
    fn get_offset(&self, x: i32, y: i32, z: i32) -> (r: Option<usize>)
        requires
            self.valid_region.wf(),
        ensures
            match r {
                Some(off) => self.valid_region.contains_spec(x as int, y as int, z as int)
                    && off == self.valid_region.linear_index(x as int, y as int, z as int)
                    && off < self.valid_region.volume_spec(),
                None => !self.valid_region.contains_spec(x as int, y as int, z as int),
            },
    {
        if self.valid_region.contains_point(x, y, z) {
            let corner = self.valid_region.get_lower_corner();
            let width = self.valid_region.get_width();
            let height = self.valid_region.get_height();

            proof {
                self.valid_region.lemma_dims_fit();
                self.valid_region.lemma_linear_index_partials(x as int, y as int, z as int);
            }
            let local_x = x - corner.x;
            let local_y = y - corner.y;
            let local_z = z - corner.z;
            Some((local_x + local_y * width + local_z * (width * height)) as usize)
        } else {
            None
        }
    }

    /// A borrowed view of the stored voxels, used by samplers.
    pub fn get_data(&self) -> (r: &Vec<T>)
        ensures
            r@ == self.data@,
    {
        &self.data
    }

    pub fn set_border_value(&mut self, value: T)
        ensures
            final(self).border_value == value,
            final(self).data@ == old(self).data@,
            final(self).valid_region == old(self).valid_region,
    {
        self.border_value = value;
    }
}

impl<T: Voxel> Volume<T> for RawVolume<T> {
    open spec fn region_spec(&self) -> Region {
        self.valid_region
    }

    open spec fn data_spec(&self) -> Seq<T> {
        self.data@
    }

    open spec fn border_spec(&self) -> T {
        self.border_value
    }

    open spec fn inv(&self) -> bool {
        self.wf()
    }

    proof fn lemma_inv_properties(&self) {
    }

    fn get_region(&self) -> (r: &Region) {
        &self.valid_region
    }

    fn get_voxel_at(&self, x: i32, y: i32, z: i32) -> (r: T) {
        match self.get_offset(x, y, z) {
            Some(offset) => self.data[offset],
            None => self.border_value,
        }
    }

    fn set_voxel_at(&mut self, x: i32, y: i32, z: i32, voxel: T) -> (r: Result<
        (),
        PositionError,
    >) {
        match self.get_offset(x, y, z) {
            Some(offset) => {
                self.data[offset] = voxel;
                Ok(())
            },
            None => Err(PositionError {}),
        }
    }

    fn calculate_size_in_bytes(&self) -> (r: usize) {
        core::mem::size_of::<T>() * self.valid_region.get_volume() as usize
    }

    fn get_border_value(&self) -> (r: T) {
        self.border_value
    }
}

} // verus!
