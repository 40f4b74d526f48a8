use vstd::prelude::*;

use crate::raw_volume::RawVolume;
use crate::region::Region;
use crate::sampler::{Sampler, can_step, peek_lookup};
use crate::vec3::Vec3;
use crate::volume::{PositionError, Volume, voxel_lookup};
use crate::voxel::Voxel;

verus! {

/// The offset arithmetic behind a peek: the stepped position is inside the
/// region, and every partial sum of the offset deltas — applied in x, y, z
/// order — is itself a valid offset.
proof fn lemma_peek_index(region: Region, x: int, y: int, z: int, dx: int, dy: int, dz: int)
    requires
        region.wf(),
        region.contains_spec(x, y, z),
        -1 <= dx <= 1,
        -1 <= dy <= 1,
        -1 <= dz <= 1,
        can_step(region.lower_x as int, region.upper_x as int, x, dx),
        can_step(region.lower_y as int, region.upper_y as int, y, dy),
        can_step(region.lower_z as int, region.upper_z as int, z, dz),
    ensures
        region.contains_spec(x + dx, y + dy, z + dz),
        0 <= region.linear_index(x, y, z) < region.volume_spec(),
        0 <= region.linear_index(x, y, z) + dx < region.volume_spec(),
        0 <= region.linear_index(x, y, z) + dx + dy * region.width_spec()
            < region.volume_spec(),
        0 <= region.linear_index(x, y, z) + dx + dy * region.width_spec() + dz
            * region.area_spec() < region.volume_spec(),
        region.linear_index(x + dx, y + dy, z + dz) == region.linear_index(x, y, z) + dx + dy
            * region.width_spec() + dz * region.area_spec(),
{
    region.lemma_linear_index_bounds(x, y, z);
    region.lemma_linear_index_step(x, y, z, dx, 0, 0);
    region.lemma_linear_index_bounds(x + dx, y, z);
    region.lemma_linear_index_step(x + dx, y, z, 0, dy, 0);
    region.lemma_linear_index_bounds(x + dx, y + dy, z);
    region.lemma_linear_index_step(x + dx, y + dy, z, 0, 0, dz);
    region.lemma_linear_index_bounds(x + dx, y + dy, z + dz);
}

/// A cursor over a `RawVolume`'s data.  It caches the linear offset of its
/// position and one inside-the-region flag per axis, so that the voxel
/// under the cursor and all 26 neighbour peeks are single array reads.
pub struct RawVolumeSampler<'a, T: Voxel> {
    data: &'a Vec<T>,
    valid_region: Region,
    x_pos: i32,
    y_pos: i32,
    z_pos: i32,
    current_offset: Option<usize>,
    current_x_valid: bool,
    current_y_valid: bool,
    current_z_valid: bool,
    border_value: T,
}

impl<'a, T: Voxel> RawVolumeSampler<'a, T> {
    /// The cached offset: the position's linear index inside the region,
    /// `None` outside.
    pub closed spec fn offset_spec(&self) -> Option<usize> {
        self.current_offset
    }

    /// What the cache of a well-formed sampler holds: construction, seeks
    /// and unit moves all leave the offset equal to the cursor's linear
    /// index while the cursor is inside the region, and clear it outside.
    pub proof fn lemma_offset_cache(&self)
        requires
            self.wf(),
        ensures
            match self.offset_spec() {
                Some(off) => self.region_spec().contains_spec(
                    self.x_spec(),
                    self.y_spec(),
                    self.z_spec(),
                ) && off == self.region_spec().linear_index(
                    self.x_spec(),
                    self.y_spec(),
                    self.z_spec(),
                ),
                None => !self.region_spec().contains_spec(
                    self.x_spec(),
                    self.y_spec(),
                    self.z_spec(),
                ),
            },
    {
    }

    /// A sampler over `volume`, standing at the region's lower corner.
    pub fn new(volume: &'a RawVolume<T>) -> (r: Self)
        requires
            volume.wf(),
        ensures
            r.wf(),
            r.region_spec() == volume.valid_region,
            r.data_spec() == volume.data@,
            r.border_spec() == volume.border_value,
            r.x_spec() == volume.valid_region.lower_x,
            r.y_spec() == volume.valid_region.lower_y,
            r.z_spec() == volume.valid_region.lower_z,
    {
        let region = volume.get_region().clone();
        let x = region.lower_x;
        let y = region.lower_y;
        let z = region.lower_z;

        RawVolumeSampler {
            data: volume.get_data(),
            valid_region: region,
            x_pos: x,
            y_pos: y,
            z_pos: z,
            current_offset: Some(0),
            current_x_valid: true,
            current_y_valid: true,
            current_z_valid: true,
            border_value: volume.get_border_value(),
        }
    }

    /// The linear offset of `(x, y, z)`, or an error outside the region.
    fn get_offset(&self, x: i32, y: i32, z: i32) -> (r: Result<usize, PositionError>)
        requires
            self.valid_region.wf(),
        ensures
            match r {
                Ok(off) => self.valid_region.contains_spec(x as int, y as int, z as int) && off
                    == self.valid_region.linear_index(x as int, y as int, z as int) && off
                    < self.valid_region.volume_spec(),
                Err(_) => !self.valid_region.contains_spec(x as int, y as int, z as int),
            },
    {
        if self.valid_region.contains_point(x, y, z) {
            let corner = self.valid_region.get_lower_corner();
            let width = self.valid_region.get_width();
            let height = self.valid_region.get_height();

            proof {
                self.valid_region.lemma_dims_fit();
                self.valid_region.lemma_linear_index_partials(x as int, y as int, z as int);
            }
            let local_x = x - corner.x;
            let local_y = y - corner.y;
            let local_z = z - corner.z;

            Ok((local_x + local_y * width + local_z * (width * height)) as usize)
        } else {
            Err(PositionError {})
        }
    }

    fn can_go_neg_x(&self, x: i32) -> (r: bool)
        ensures
            r == (x > self.valid_region.lower_x),
    {
        x > self.valid_region.lower_x
    }

    fn can_go_neg_y(&self, y: i32) -> (r: bool)
        ensures
            r == (y > self.valid_region.lower_y),
    {
        y > self.valid_region.lower_y
    }

    fn can_go_neg_z(&self, z: i32) -> (r: bool)
        ensures
            r == (z > self.valid_region.lower_z),
    {
        z > self.valid_region.lower_z
    }

    fn can_go_pos_x(&self, x: i32) -> (r: bool)
        ensures
            r == (x < self.valid_region.upper_x),
    {
        x < self.valid_region.upper_x
    }

    fn can_go_pos_y(&self, y: i32) -> (r: bool)
        ensures
            r == (y < self.valid_region.upper_y),
    {
        y < self.valid_region.upper_y
    }

    fn can_go_pos_z(&self, z: i32) -> (r: bool)
        ensures
            r == (z < self.valid_region.upper_z),
    {
        z < self.valid_region.upper_z
    }
}

impl<'a, T: Voxel> Sampler<T> for RawVolumeSampler<'a, T> {
    closed spec fn region_spec(&self) -> Region {
        self.valid_region
    }

    closed spec fn data_spec(&self) -> Seq<T> {
        self.data@
    }

    closed spec fn border_spec(&self) -> T {
        self.border_value
    }

    closed spec fn x_spec(&self) -> int {
        self.x_pos as int
    }

    closed spec fn y_spec(&self) -> int {
        self.y_pos as int
    }

    closed spec fn z_spec(&self) -> int {
        self.z_pos as int
    }

    closed spec fn wf(&self) -> bool {
        &&& self.valid_region.wf()
        &&& self.data@.len() == self.valid_region.volume_spec()
        &&& self.current_x_valid == (self.valid_region.lower_x <= self.x_pos
            <= self.valid_region.upper_x)
        &&& self.current_y_valid == (self.valid_region.lower_y <= self.y_pos
            <= self.valid_region.upper_y)
        &&& self.current_z_valid == (self.valid_region.lower_z <= self.z_pos
            <= self.valid_region.upper_z)
        &&& match self.current_offset {
            Some(off) => self.valid_region.contains_spec(
                self.x_pos as int,
                self.y_pos as int,
                self.z_pos as int,
            ) && off == self.valid_region.linear_index(
                self.x_pos as int,
                self.y_pos as int,
                self.z_pos as int,
            ),
            None => !self.valid_region.contains_spec(
                self.x_pos as int,
                self.y_pos as int,
                self.z_pos as int,
            ),
        }
    }

    proof fn lemma_wf_properties(&self) {
    }

    fn get_position(&self) -> (r: Vec3<i32>) {
        Vec3 { x: self.x_pos, y: self.y_pos, z: self.z_pos }
    }

    fn get_voxel(&self) -> (r: T) {
        match self.current_offset {
            Some(offset) => {
                proof {
                    self.valid_region.lemma_linear_index_bounds(
                        self.x_pos as int,
                        self.y_pos as int,
                        self.z_pos as int,
                    );
                }
                self.data[offset]
            },
            None => self.border_value,
        }
    }

    fn set_position(&mut self, x: i32, y: i32, z: i32) {
        self.x_pos = x;
        self.y_pos = y;
        self.z_pos = z;

        self.current_x_valid = self.valid_region.contains_point_in_x(x);
        self.current_y_valid = self.valid_region.contains_point_in_y(y);
        self.current_z_valid = self.valid_region.contains_point_in_z(z);

        match self.get_offset(x, y, z) {
            Ok(offset) => self.current_offset = Some(offset),
            Err(_) => self.current_offset = None,
        }
    }

    fn move_positive_x(&mut self) {
        let ghost pre = *self;
        let was_valid = self.current_x_valid && self.current_y_valid && self.current_z_valid;
        self.x_pos = self.x_pos + 1;
        self.current_x_valid = self.valid_region.contains_point_in_x(self.x_pos);
        let now_valid = self.current_x_valid && self.current_y_valid && self.current_z_valid;
        if was_valid && now_valid {
            proof {
                self.valid_region.lemma_linear_index_step(
                    pre.x_pos as int,
                    pre.y_pos as int,
                    pre.z_pos as int,
                    1,
                    0,
                    0,
                );
                self.valid_region.lemma_linear_index_bounds(
                    self.x_pos as int,
                    self.y_pos as int,
                    self.z_pos as int,
                );
            }
            self.current_offset = Some(self.current_offset.unwrap() + 1);
        } else if now_valid {
            match self.get_offset(self.x_pos, self.y_pos, self.z_pos) {
                Ok(offset) => self.current_offset = Some(offset),
                Err(_) => self.current_offset = None,
            }
        } else {
            self.current_offset = None;
        }
    }

    fn move_positive_y(&mut self) {
        let ghost pre = *self;
        let was_valid = self.current_x_valid && self.current_y_valid && self.current_z_valid;
        self.y_pos = self.y_pos + 1;
        self.current_y_valid = self.valid_region.contains_point_in_y(self.y_pos);
        let now_valid = self.current_x_valid && self.current_y_valid && self.current_z_valid;
        if was_valid && now_valid {
            proof {
                self.valid_region.lemma_linear_index_step(
                    pre.x_pos as int,
                    pre.y_pos as int,
                    pre.z_pos as int,
                    0,
                    1,
                    0,
                );
                self.valid_region.lemma_linear_index_bounds(
                    self.x_pos as int,
                    self.y_pos as int,
                    self.z_pos as int,
                );
            }
            self.current_offset = Some(
                self.current_offset.unwrap() + self.valid_region.get_width() as usize,
            );
        } else if now_valid {
            match self.get_offset(self.x_pos, self.y_pos, self.z_pos) {
                Ok(offset) => self.current_offset = Some(offset),
                Err(_) => self.current_offset = None,
            }
        } else {
            self.current_offset = None;
        }
    }

    fn move_positive_z(&mut self) {
        let ghost pre = *self;
        let was_valid = self.current_x_valid && self.current_y_valid && self.current_z_valid;
        self.z_pos = self.z_pos + 1;
        self.current_z_valid = self.valid_region.contains_point_in_z(self.z_pos);
        let now_valid = self.current_x_valid && self.current_y_valid && self.current_z_valid;
        if was_valid && now_valid {
            proof {
                self.valid_region.lemma_linear_index_step(
                    pre.x_pos as int,
                    pre.y_pos as int,
                    pre.z_pos as int,
                    0,
                    0,
                    1,
                );
                self.valid_region.lemma_linear_index_bounds(
                    self.x_pos as int,
                    self.y_pos as int,
                    self.z_pos as int,
                );
            }
            self.current_offset = Some(
                self.current_offset.unwrap() + self.valid_region.get_area() as usize,
            );
        } else if now_valid {
            match self.get_offset(self.x_pos, self.y_pos, self.z_pos) {
                Ok(offset) => self.current_offset = Some(offset),
                Err(_) => self.current_offset = None,
            }
        } else {
            self.current_offset = None;
        }
    }

    fn move_negative_x(&mut self) {
        let ghost pre = *self;
        let was_valid = self.current_x_valid && self.current_y_valid && self.current_z_valid;
        self.x_pos = self.x_pos - 1;
        self.current_x_valid = self.valid_region.contains_point_in_x(self.x_pos);
        let now_valid = self.current_x_valid && self.current_y_valid && self.current_z_valid;
        if was_valid && now_valid {
            proof {
                self.valid_region.lemma_linear_index_step(
                    pre.x_pos as int,
                    pre.y_pos as int,
                    pre.z_pos as int,
                    -1,
                    0,
                    0,
                );
                self.valid_region.lemma_linear_index_bounds(
                    self.x_pos as int,
                    self.y_pos as int,
                    self.z_pos as int,
                );
            }
            self.current_offset = Some(self.current_offset.unwrap() - 1);
        } else if now_valid {
            match self.get_offset(self.x_pos, self.y_pos, self.z_pos) {
                Ok(offset) => self.current_offset = Some(offset),
                Err(_) => self.current_offset = None,
            }
        } else {
            self.current_offset = None;
        }
    }

    fn move_negative_y(&mut self) {
        let ghost pre = *self;
        let was_valid = self.current_x_valid && self.current_y_valid && self.current_z_valid;
        self.y_pos = self.y_pos - 1;
        self.current_y_valid = self.valid_region.contains_point_in_y(self.y_pos);
        let now_valid = self.current_x_valid && self.current_y_valid && self.current_z_valid;
        if was_valid && now_valid {
            proof {
                self.valid_region.lemma_linear_index_step(
                    pre.x_pos as int,
                    pre.y_pos as int,
                    pre.z_pos as int,
                    0,
                    -1,
                    0,
                );
                self.valid_region.lemma_linear_index_bounds(
                    self.x_pos as int,
                    self.y_pos as int,
                    self.z_pos as int,
                );
            }
            self.current_offset = Some(
                self.current_offset.unwrap() - self.valid_region.get_width() as usize,
            );
        } else if now_valid {
            match self.get_offset(self.x_pos, self.y_pos, self.z_pos) {
                Ok(offset) => self.current_offset = Some(offset),
                Err(_) => self.current_offset = None,
            }
        } else {
            self.current_offset = None;
        }
    }

    fn move_negative_z(&mut self) {
        let ghost pre = *self;
        let was_valid = self.current_x_valid && self.current_y_valid && self.current_z_valid;
        self.z_pos = self.z_pos - 1;
        self.current_z_valid = self.valid_region.contains_point_in_z(self.z_pos);
        let now_valid = self.current_x_valid && self.current_y_valid && self.current_z_valid;
        if was_valid && now_valid {
            proof {
                self.valid_region.lemma_linear_index_step(
                    pre.x_pos as int,
                    pre.y_pos as int,
                    pre.z_pos as int,
                    0,
                    0,
                    -1,
                );
                self.valid_region.lemma_linear_index_bounds(
                    self.x_pos as int,
                    self.y_pos as int,
                    self.z_pos as int,
                );
            }
            self.current_offset = Some(
                self.current_offset.unwrap() - self.valid_region.get_area() as usize,
            );
        } else if now_valid {
            match self.get_offset(self.x_pos, self.y_pos, self.z_pos) {
                Ok(offset) => self.current_offset = Some(offset),
                Err(_) => self.current_offset = None,
            }
        } else {
            self.current_offset = None;
        }
    }

    fn is_current_position_valid(&self) -> (r: bool) {
        self.current_x_valid && self.current_y_valid && self.current_z_valid
    }

    fn peek_voxel_1nx1ny1nz(&self) -> (r: T) {
        if self.is_current_position_valid() && self.can_go_neg_x(self.x_pos) && self.can_go_neg_y(
            self.y_pos,
        ) && self.can_go_neg_z(self.z_pos) {
            proof {
                lemma_peek_index(
                    self.valid_region,
                    self.x_pos as int,
                    self.y_pos as int,
                    self.z_pos as int,
                    -1,
                    -1,
                    -1,
                );
            }
            self.data[(self.current_offset.unwrap() as i32 - 1 - self.valid_region.get_width()
                - self.valid_region.get_area()) as usize]
        } else {
            self.border_value
        }
    }

    fn peek_voxel_1nx1ny0pz(&self) -> (r: T) {
        if self.is_current_position_valid() && self.can_go_neg_x(self.x_pos) && self.can_go_neg_y(
            self.y_pos,
        ) {
            proof {
                lemma_peek_index(
                    self.valid_region,
                    self.x_pos as int,
                    self.y_pos as int,
                    self.z_pos as int,
                    -1,
                    -1,
                    0,
                );
            }
            self.data[(self.current_offset.unwrap() as i32 - 1
                - self.valid_region.get_width()) as usize]
        } else {
            self.border_value
        }
    }

    fn peek_voxel_1nx1ny1pz(&self) -> (r: T) {
        if self.is_current_position_valid() && self.can_go_neg_x(self.x_pos) && self.can_go_neg_y(
            self.y_pos,
        ) && self.can_go_pos_z(self.z_pos) {
            proof {
                lemma_peek_index(
                    self.valid_region,
                    self.x_pos as int,
                    self.y_pos as int,
                    self.z_pos as int,
                    -1,
                    -1,
                    1,
                );
            }
            self.data[(self.current_offset.unwrap() as i32 - 1 - self.valid_region.get_width()
                + self.valid_region.get_area()) as usize]
        } else {
            self.border_value
        }
    }

    fn peek_voxel_1nx0py1nz(&self) -> (r: T) {
        if self.is_current_position_valid() && self.can_go_neg_x(self.x_pos) && self.can_go_neg_z(
            self.z_pos,
        ) {
            proof {
                lemma_peek_index(
                    self.valid_region,
                    self.x_pos as int,
                    self.y_pos as int,
                    self.z_pos as int,
                    -1,
                    0,
                    -1,
                );
            }
            self.data[(self.current_offset.unwrap() as i32 - 1
                - self.valid_region.get_area()) as usize]
        } else {
            self.border_value
        }
    }

    fn peek_voxel_1nx0py0pz(&self) -> (r: T) {
        if self.is_current_position_valid() && self.can_go_neg_x(self.x_pos) {
            proof {
                lemma_peek_index(
                    self.valid_region,
                    self.x_pos as int,
                    self.y_pos as int,
                    self.z_pos as int,
                    -1,
                    0,
                    0,
                );
            }
            self.data[(self.current_offset.unwrap() as i32 - 1) as usize]
        } else {
            self.border_value
        }
    }

    fn peek_voxel_1nx0py1pz(&self) -> (r: T) {
        if self.is_current_position_valid() && self.can_go_neg_x(self.x_pos) && self.can_go_pos_z(
            self.z_pos,
        ) {
            proof {
                lemma_peek_index(
                    self.valid_region,
                    self.x_pos as int,
                    self.y_pos as int,
                    self.z_pos as int,
                    -1,
                    0,
                    1,
                );
            }
            self.data[(self.current_offset.unwrap() as i32 - 1
                + self.valid_region.get_area()) as usize]
        } else {
            self.border_value
        }
    }

    fn peek_voxel_1nx1py1nz(&self) -> (r: T) {
        if self.is_current_position_valid() && self.can_go_neg_x(self.x_pos) && self.can_go_pos_y(
            self.y_pos,
        ) && self.can_go_neg_z(self.z_pos) {
            proof {
                lemma_peek_index(
                    self.valid_region,
                    self.x_pos as int,
                    self.y_pos as int,
                    self.z_pos as int,
                    -1,
                    1,
                    -1,
                );
            }
            self.data[(self.current_offset.unwrap() as i32 - 1 + self.valid_region.get_width()
                - self.valid_region.get_area()) as usize]
        } else {
            self.border_value
        }
    }

    fn peek_voxel_1nx1py0pz(&self) -> (r: T) {
        if self.is_current_position_valid() && self.can_go_neg_x(self.x_pos) && self.can_go_pos_y(
            self.y_pos,
        ) {
            proof {
                lemma_peek_index(
                    self.valid_region,
                    self.x_pos as int,
                    self.y_pos as int,
                    self.z_pos as int,
                    -1,
                    1,
                    0,
                );
            }
            self.data[(self.current_offset.unwrap() as i32 - 1
                + self.valid_region.get_width()) as usize]
        } else {
            self.border_value
        }
    }

    fn peek_voxel_1nx1py1pz(&self) -> (r: T) {
        if self.is_current_position_valid() && self.can_go_neg_x(self.x_pos) && self.can_go_pos_y(
            self.y_pos,
        ) && self.can_go_pos_z(self.z_pos) {
            proof {
                lemma_peek_index(
                    self.valid_region,
                    self.x_pos as int,
                    self.y_pos as int,
                    self.z_pos as int,
                    -1,
                    1,
                    1,
                );
            }
            self.data[(self.current_offset.unwrap() as i32 - 1 + self.valid_region.get_width()
                + self.valid_region.get_area()) as usize]
        } else {
            self.border_value
        }
    }

    fn peek_voxel_0px1ny1nz(&self) -> (r: T) {
        if self.is_current_position_valid() && self.can_go_neg_y(self.y_pos) && self.can_go_neg_z(
            self.z_pos,
        ) {
            proof {
                lemma_peek_index(
                    self.valid_region,
                    self.x_pos as int,
                    self.y_pos as int,
                    self.z_pos as int,
                    0,
                    -1,
                    -1,
                );
            }
            self.data[(self.current_offset.unwrap() as i32 - self.valid_region.get_width()
                - self.valid_region.get_area()) as usize]
        } else {
            self.border_value
        }
    }

    fn peek_voxel_0px1ny0pz(&self) -> (r: T) {
        if self.is_current_position_valid() && self.can_go_neg_y(self.y_pos) {
            proof {
                lemma_peek_index(
                    self.valid_region,
                    self.x_pos as int,
                    self.y_pos as int,
                    self.z_pos as int,
                    0,
                    -1,
                    0,
                );
            }
            self.data[(self.current_offset.unwrap() as i32
                - self.valid_region.get_width()) as usize]
        } else {
            self.border_value
        }
    }

    fn peek_voxel_0px1ny1pz(&self) -> (r: T) {
        if self.is_current_position_valid() && self.can_go_neg_y(self.y_pos) && self.can_go_pos_z(
            self.z_pos,
        ) {
            proof {
                lemma_peek_index(
                    self.valid_region,
                    self.x_pos as int,
                    self.y_pos as int,
                    self.z_pos as int,
                    0,
                    -1,
                    1,
                );
            }
            self.data[(self.current_offset.unwrap() as i32 - self.valid_region.get_width()
                + self.valid_region.get_area()) as usize]
        } else {
            self.border_value
        }
    }

    fn peek_voxel_0px0py1nz(&self) -> (r: T) {
        if self.is_current_position_valid() && self.can_go_neg_z(self.z_pos) {
            proof {
                lemma_peek_index(
                    self.valid_region,
                    self.x_pos as int,
                    self.y_pos as int,
                    self.z_pos as int,
                    0,
                    0,
                    -1,
                );
            }
            self.data[(self.current_offset.unwrap() as i32
                - self.valid_region.get_area()) as usize]
        } else {
            self.border_value
        }
    }

    fn peek_voxel_0px0py0pz(&self) -> (r: T) {
        if self.is_current_position_valid() {
            proof {
                lemma_peek_index(
                    self.valid_region,
                    self.x_pos as int,
                    self.y_pos as int,
                    self.z_pos as int,
                    0,
                    0,
                    0,
                );
            }
            self.data[self.current_offset.unwrap()]
        } else {
            self.border_value
        }
    }

    fn peek_voxel_0px0py1pz(&self) -> (r: T) {
        if self.is_current_position_valid() && self.can_go_pos_z(self.z_pos) {
            proof {
                lemma_peek_index(
                    self.valid_region,
                    self.x_pos as int,
                    self.y_pos as int,
                    self.z_pos as int,
                    0,
                    0,
                    1,
                );
            }
            self.data[(self.current_offset.unwrap() as i32
                + self.valid_region.get_area()) as usize]
        } else {
            self.border_value
        }
    }

    fn peek_voxel_0px1py1nz(&self) -> (r: T) {
        if self.is_current_position_valid() && self.can_go_pos_y(self.y_pos) && self.can_go_neg_z(
            self.z_pos,
        ) {
            proof {
                lemma_peek_index(
                    self.valid_region,
                    self.x_pos as int,
                    self.y_pos as int,
                    self.z_pos as int,
                    0,
                    1,
                    -1,
                );
            }
            self.data[(self.current_offset.unwrap() as i32 + self.valid_region.get_width()
                - self.valid_region.get_area()) as usize]
        } else {
            self.border_value
        }
    }

    fn peek_voxel_0px1py0pz(&self) -> (r: T) {
        if self.is_current_position_valid() && self.can_go_pos_y(self.y_pos) {
            proof {
                lemma_peek_index(
                    self.valid_region,
                    self.x_pos as int,
                    self.y_pos as int,
                    self.z_pos as int,
                    0,
                    1,
                    0,
                );
            }
            self.data[(self.current_offset.unwrap() as i32
                + self.valid_region.get_width()) as usize]
        } else {
            self.border_value
        }
    }

    fn peek_voxel_0px1py1pz(&self) -> (r: T) {
        if self.is_current_position_valid() && self.can_go_pos_y(self.y_pos) && self.can_go_pos_z(
            self.z_pos,
        ) {
            proof {
                lemma_peek_index(
                    self.valid_region,
                    self.x_pos as int,
                    self.y_pos as int,
                    self.z_pos as int,
                    0,
                    1,
                    1,
                );
            }
            self.data[(self.current_offset.unwrap() as i32 + self.valid_region.get_width()
                + self.valid_region.get_area()) as usize]
        } else {
            self.border_value
        }
    }

    fn peek_voxel_1px1ny1nz(&self) -> (r: T) {
        if self.is_current_position_valid() && self.can_go_pos_x(self.x_pos) && self.can_go_neg_y(
            self.y_pos,
        ) && self.can_go_neg_z(self.z_pos) {
            proof {
                lemma_peek_index(
                    self.valid_region,
                    self.x_pos as int,
                    self.y_pos as int,
                    self.z_pos as int,
                    1,
                    -1,
                    -1,
                );
            }
            self.data[(self.current_offset.unwrap() as i32 + 1 - self.valid_region.get_width()
                - self.valid_region.get_area()) as usize]
        } else {
            self.border_value
        }
    }

    fn peek_voxel_1px1ny0pz(&self) -> (r: T) {
        if self.is_current_position_valid() && self.can_go_pos_x(self.x_pos) && self.can_go_neg_y(
            self.y_pos,
        ) {
            proof {
                lemma_peek_index(
                    self.valid_region,
                    self.x_pos as int,
                    self.y_pos as int,
                    self.z_pos as int,
                    1,
                    -1,
                    0,
                );
            }
            self.data[(self.current_offset.unwrap() as i32 + 1
                - self.valid_region.get_width()) as usize]
        } else {
            self.border_value
        }
    }

    fn peek_voxel_1px1ny1pz(&self) -> (r: T) {
        if self.is_current_position_valid() && self.can_go_pos_x(self.x_pos) && self.can_go_neg_y(
            self.y_pos,
        ) && self.can_go_pos_z(self.z_pos) {
            proof {
                lemma_peek_index(
                    self.valid_region,
                    self.x_pos as int,
                    self.y_pos as int,
                    self.z_pos as int,
                    1,
                    -1,
                    1,
                );
            }
            self.data[(self.current_offset.unwrap() as i32 + 1 - self.valid_region.get_width()
                + self.valid_region.get_area()) as usize]
        } else {
            self.border_value
        }
    }

    fn peek_voxel_1px0py1nz(&self) -> (r: T) {
        if self.is_current_position_valid() && self.can_go_pos_x(self.x_pos) && self.can_go_neg_z(
            self.z_pos,
        ) {
            proof {
                lemma_peek_index(
                    self.valid_region,
                    self.x_pos as int,
                    self.y_pos as int,
                    self.z_pos as int,
                    1,
                    0,
                    -1,
                );
            }
            self.data[(self.current_offset.unwrap() as i32 + 1
                - self.valid_region.get_area()) as usize]
        } else {
            self.border_value
        }
    }

    fn peek_voxel_1px0py0pz(&self) -> (r: T) {
        if self.is_current_position_valid() && self.can_go_pos_x(self.x_pos) {
            proof {
                lemma_peek_index(
                    self.valid_region,
                    self.x_pos as int,
                    self.y_pos as int,
                    self.z_pos as int,
                    1,
                    0,
                    0,
                );
            }
            self.data[(self.current_offset.unwrap() as i32 + 1) as usize]
        } else {
            self.border_value
        }
    }

    fn peek_voxel_1px0py1pz(&self) -> (r: T) {
        if self.is_current_position_valid() && self.can_go_pos_x(self.x_pos) && self.can_go_pos_z(
            self.z_pos,
        ) {
            proof {
                lemma_peek_index(
                    self.valid_region,
                    self.x_pos as int,
                    self.y_pos as int,
                    self.z_pos as int,
                    1,
                    0,
                    1,
                );
            }
            self.data[(self.current_offset.unwrap() as i32 + 1
                + self.valid_region.get_area()) as usize]
        } else {
            self.border_value
        }
    }

    fn peek_voxel_1px1py1nz(&self) -> (r: T) {
        if self.is_current_position_valid() && self.can_go_pos_x(self.x_pos) && self.can_go_pos_y(
            self.y_pos,
        ) && self.can_go_neg_z(self.z_pos) {
            proof {
                lemma_peek_index(
                    self.valid_region,
                    self.x_pos as int,
                    self.y_pos as int,
                    self.z_pos as int,
                    1,
                    1,
                    -1,
                );
            }
            self.data[(self.current_offset.unwrap() as i32 + 1 + self.valid_region.get_width()
                - self.valid_region.get_area()) as usize]
        } else {
            self.border_value
        }
    }

    fn peek_voxel_1px1py0pz(&self) -> (r: T) {
        if self.is_current_position_valid() && self.can_go_pos_x(self.x_pos) && self.can_go_pos_y(
            self.y_pos,
        ) {
            proof {
                lemma_peek_index(
                    self.valid_region,
                    self.x_pos as int,
                    self.y_pos as int,
                    self.z_pos as int,
                    1,
                    1,
                    0,
                );
            }
            self.data[(self.current_offset.unwrap() as i32 + 1
                + self.valid_region.get_width()) as usize]
        } else {
            self.border_value
        }
    }

    fn peek_voxel_1px1py1pz(&self) -> (r: T) {
        if self.is_current_position_valid() && self.can_go_pos_x(self.x_pos) && self.can_go_pos_y(
            self.y_pos,
        ) && self.can_go_pos_z(self.z_pos) {
            proof {
                lemma_peek_index(
                    self.valid_region,
                    self.x_pos as int,
                    self.y_pos as int,
                    self.z_pos as int,
                    1,
                    1,
                    1,
                );
            }
            self.data[(self.current_offset.unwrap() as i32 + 1 + self.valid_region.get_width()
                + self.valid_region.get_area()) as usize]
        } else {
            self.border_value
        }
    }
}

/// Stepping the cursor one unit along any axis and then back returns it to
/// the same position, the same cached offset, and the same voxel read.
pub proof fn lemma_step_round_trip<'a, T: Voxel>(
    s0: RawVolumeSampler<'a, T>,
    s1: RawVolumeSampler<'a, T>,
    s2: RawVolumeSampler<'a, T>,
    dx: int,
    dy: int,
    dz: int,
)
    requires
        s0.wf(),
        s1.wf(),
        s2.wf(),
        s1.region_spec() == s0.region_spec(),
        s1.data_spec() == s0.data_spec(),
        s1.border_spec() == s0.border_spec(),
        s2.region_spec() == s1.region_spec(),
        s2.data_spec() == s1.data_spec(),
        s2.border_spec() == s1.border_spec(),
        s1.x_spec() == s0.x_spec() + dx,
        s1.y_spec() == s0.y_spec() + dy,
        s1.z_spec() == s0.z_spec() + dz,
        s2.x_spec() == s1.x_spec() - dx,
        s2.y_spec() == s1.y_spec() - dy,
        s2.z_spec() == s1.z_spec() - dz,
    ensures
        s2.x_spec() == s0.x_spec(),
        s2.y_spec() == s0.y_spec(),
        s2.z_spec() == s0.z_spec(),
        s2.offset_spec() == s0.offset_spec(),
        voxel_lookup(
            s2.region_spec(),
            s2.data_spec(),
            s2.border_spec(),
            s2.x_spec(),
            s2.y_spec(),
            s2.z_spec(),
        ) == voxel_lookup(
            s0.region_spec(),
            s0.data_spec(),
            s0.border_spec(),
            s0.x_spec(),
            s0.y_spec(),
            s0.z_spec(),
        ),
{
}

} // verus!
