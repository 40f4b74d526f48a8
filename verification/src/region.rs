use vstd::prelude::*;

use crate::vec3::Vec3;

verus! {

/// An axis-aligned box of voxel positions with inclusive integer bounds.
#[derive(Clone, Copy, Debug)]
pub struct Region {
    pub lower_x: i32,
    pub lower_y: i32,
    pub lower_z: i32,
    pub upper_x: i32,
    pub upper_y: i32,
    pub upper_z: i32,
}

impl Region {
    /// Number of voxel positions along the x axis.
    pub open spec fn width_spec(&self) -> int {
        self.upper_x - self.lower_x + 1
    }

    /// Number of voxel positions along the y axis.
    pub open spec fn height_spec(&self) -> int {
        self.upper_y - self.lower_y + 1
    }

    /// Number of voxel positions along the z axis.
    pub open spec fn depth_spec(&self) -> int {
        self.upper_z - self.lower_z + 1
    }

    /// Number of voxel positions in one z slab.
    pub open spec fn area_spec(&self) -> int {
        self.width_spec() * self.height_spec()
    }

    /// Number of voxel positions in the whole box.
    pub open spec fn volume_spec(&self) -> int {
        self.area_spec() * self.depth_spec()
    }

    /// The bounds are ordered on every axis and the voxel count fits an `i32`.
    pub open spec fn wf(&self) -> bool {
        &&& self.lower_x <= self.upper_x
        &&& self.lower_y <= self.upper_y
        &&& self.lower_z <= self.upper_z
        &&& self.volume_spec() <= i32::MAX
    }

    pub open spec fn contains_spec(&self, x: int, y: int, z: int) -> bool {
        &&& self.lower_x <= x <= self.upper_x
        &&& self.lower_y <= y <= self.upper_y
        &&& self.lower_z <= z <= self.upper_z
    }

    pub open spec fn contains_excluding_spec(&self, x: int, y: int, z: int, boundary: int) -> bool {
        &&& self.lower_x + boundary <= x <= self.upper_x - boundary
        &&& self.lower_y + boundary <= y <= self.upper_y - boundary
        &&& self.lower_z + boundary <= z <= self.upper_z - boundary
    }

    /// Offset of `(x, y, z)` in a dense array over this region:
    /// x varies fastest, z slowest.
    pub open spec fn linear_index(&self, x: int, y: int, z: int) -> int {
        (x - self.lower_x) + (y - self.lower_y) * self.width_spec() + (z - self.lower_z)
            * self.area_spec()
    }

    /// Every contained position maps to a distinct offset below the volume.
    pub proof fn lemma_linear_index_bounds(&self, x: int, y: int, z: int)
        requires
            self.wf(),
            self.contains_spec(x, y, z),
        ensures
            0 <= self.linear_index(x, y, z) < self.volume_spec(),
    {
        let w = self.width_spec();
        let h = self.height_spec();
        let d = self.depth_spec();
        let lx = x - self.lower_x;
        let ly = y - self.lower_y;
        let lz = z - self.lower_z;
        assert(0 <= lx + ly * w + lz * (w * h) < (w * h) * d) by (nonlinear_arith)
            requires
                0 <= lx < w,
                0 <= ly < h,
                0 <= lz < d,
        ;
    }

    /// Moving by `(dx, dy, dz)` moves the offset by `dx + dy * width + dz * area`.
    pub proof fn lemma_linear_index_step(&self, x: int, y: int, z: int, dx: int, dy: int, dz: int)
        ensures
            self.linear_index(x + dx, y + dy, z + dz) == self.linear_index(x, y, z) + dx + dy
                * self.width_spec() + dz * self.area_spec(),
    {
        let w = self.width_spec();
        let a = self.area_spec();
        let ly = y - self.lower_y;
        let lz = z - self.lower_z;
        assert((ly + dy) * w == ly * w + dy * w) by (nonlinear_arith);
        assert((lz + dz) * a == lz * a + dz * a) by (nonlinear_arith);
    }

    /// The partial sums of the offset arithmetic, evaluated x then y then
    /// z, stay within the volume, so the offset of a contained position can
    /// be computed without overflow.
    pub proof fn lemma_linear_index_partials(&self, x: int, y: int, z: int)
        requires
            self.wf(),
            self.contains_spec(x, y, z),
        ensures
            0 <= x - self.lower_x,
            0 <= (y - self.lower_y) * self.width_spec() <= self.linear_index(x, y, z),
            0 <= (z - self.lower_z) * (self.width_spec() * self.height_spec())
                <= self.linear_index(x, y, z),
            0 <= self.linear_index(x, y, z) < self.volume_spec(),
    {
        self.lemma_linear_index_bounds(x, y, z);
        assert(0 <= (y - self.lower_y) * self.width_spec() <= self.linear_index(x, y, z) && 0 <= (
        z - self.lower_z) * (self.width_spec() * self.height_spec()) <= self.linear_index(
            x,
            y,
            z,
        )) by (nonlinear_arith)
            requires
                0 <= x - self.lower_x,
                0 <= y - self.lower_y,
                0 <= z - self.lower_z,
                0 < self.width_spec(),
                0 < self.height_spec(),
                self.linear_index(x, y, z) == (x - self.lower_x) + (y - self.lower_y)
                    * self.width_spec() + (z - self.lower_z) * (self.width_spec()
                    * self.height_spec()),
        ;
    }

    pub fn new(lower: Vec3<i32>, upper: Vec3<i32>) -> (r: Self)
        requires
            lower.x <= upper.x,
            lower.y <= upper.y,
            lower.z <= upper.z,
            (upper.x - lower.x + 1) * (upper.y - lower.y + 1) * (upper.z - lower.z + 1)
                <= i32::MAX,
        ensures
            r.lower_x == lower.x,
            r.lower_y == lower.y,
            r.lower_z == lower.z,
            r.upper_x == upper.x,
            r.upper_y == upper.y,
            r.upper_z == upper.z,
            r.wf(),
    {
        Region {
            lower_x: lower.x,
            lower_y: lower.y,
            lower_z: lower.z,
            upper_x: upper.x,
            upper_y: upper.y,
            upper_z: upper.z,
        }
    }

    /// A cube of `size` voxels on each side, with bounds `0 ..= size - 1`.
    pub fn cubic(size: i32) -> (r: Self)
        requires
            1 <= size,
            size * size * size <= i32::MAX,
        ensures
            r.lower_x == 0 && r.lower_y == 0 && r.lower_z == 0,
            r.upper_x == size - 1 && r.upper_y == size - 1 && r.upper_z == size - 1,
            r.wf(),
    {
        Region {
            lower_x: 0,
            lower_y: 0,
            lower_z: 0,
            upper_x: size - 1,
            upper_y: size - 1,
            upper_z: size - 1,
        }
    }

    /// A box of `width` by `height` by `depth` voxels with its lower corner at the origin.
    pub fn sized(width: i32, height: i32, depth: i32) -> (r: Self)
        requires
            1 <= width,
            1 <= height,
            1 <= depth,
            width * height * depth <= i32::MAX,
        ensures
            r.lower_x == 0 && r.lower_y == 0 && r.lower_z == 0,
            r.upper_x == width - 1 && r.upper_y == height - 1 && r.upper_z == depth - 1,
            r.wf(),
    {
        Region {
            lower_x: 0,
            lower_y: 0,
            lower_z: 0,
            upper_x: width - 1,
            upper_y: height - 1,
            upper_z: depth - 1,
        }
    }

    pub fn get_volume(&self) -> (r: i32)
        requires
            self.wf(),
        ensures
            r == self.volume_spec(),
    {
        proof {
            assert(1 <= self.depth_spec() * self.height_spec() && self.depth_spec()
                * self.height_spec() * self.width_spec() == self.width_spec()
                * self.height_spec() * self.depth_spec() && self.width_spec()
                * self.height_spec() * self.depth_spec() == self.volume_spec()
                && self.width_spec() <= self.volume_spec() && self.height_spec()
                <= self.volume_spec() && self.depth_spec() <= self.volume_spec()
                && self.depth_spec() * self.height_spec() <= self.volume_spec())
                by (nonlinear_arith)
                requires
                    1 <= self.width_spec(),
                    1 <= self.height_spec(),
                    1 <= self.depth_spec(),
                    self.volume_spec() == (self.width_spec() * self.height_spec())
                        * self.depth_spec(),
            ;
        }
        self.get_depth() * self.get_height() * self.get_width()
    }

    pub fn get_width(&self) -> (r: i32)
        requires
            self.wf(),
        ensures
            r == self.width_spec(),
    {
        proof {
            self.lemma_dims_fit();
        }
        self.upper_x - self.lower_x + 1
    }

    pub fn get_height(&self) -> (r: i32)
        requires
            self.wf(),
        ensures
            r == self.height_spec(),
    {
        proof {
            self.lemma_dims_fit();
        }
        self.upper_y - self.lower_y + 1
    }

    pub fn get_depth(&self) -> (r: i32)
        requires
            self.wf(),
        ensures
            r == self.depth_spec(),
    {
        proof {
            self.lemma_dims_fit();
        }
        self.upper_z - self.lower_z + 1
    }

    pub fn get_area(&self) -> (r: i32)
        requires
            self.wf(),
        ensures
            r == self.area_spec(),
    {
        proof {
            self.lemma_dims_fit();
        }
        self.get_width() * self.get_height()
    }

    /// Each dimension, and each product of two of them, fits an `i32`.
    pub proof fn lemma_dims_fit(&self)
        requires
            self.wf(),
        ensures
            self.width_spec() <= self.volume_spec(),
            self.height_spec() <= self.volume_spec(),
            self.depth_spec() <= self.volume_spec(),
            self.area_spec() <= self.volume_spec(),
            self.width_spec() * self.depth_spec() <= self.volume_spec(),
            self.height_spec() * self.depth_spec() <= self.volume_spec(),
    {
        assert(self.width_spec() <= (self.width_spec() * self.height_spec())
            * self.depth_spec() && self.height_spec() <= (self.width_spec()
            * self.height_spec()) * self.depth_spec() && self.depth_spec() <= (self.width_spec()
            * self.height_spec()) * self.depth_spec() && self.width_spec() * self.height_spec()
            <= (self.width_spec() * self.height_spec()) * self.depth_spec() && self.width_spec()
            * self.depth_spec() <= (self.width_spec() * self.height_spec()) * self.depth_spec()
            && self.height_spec() * self.depth_spec() <= (self.width_spec() * self.height_spec())
            * self.depth_spec()) by (nonlinear_arith)
            requires
                1 <= self.width_spec(),
                1 <= self.height_spec(),
                1 <= self.depth_spec(),
        ;
    }

    pub fn contains_point(&self, x: i32, y: i32, z: i32) -> (r: bool)
        ensures
            r == self.contains_spec(x as int, y as int, z as int),
    {
        x >= self.lower_x && x <= self.upper_x && y >= self.lower_y && y <= self.upper_y && z
            >= self.lower_z && z <= self.upper_z
    }

    pub fn contains_point_excluding_boundary(&self, x: i32, y: i32, z: i32, boundary: i32) -> (r:
        bool)
        ensures
            r == self.contains_excluding_spec(x as int, y as int, z as int, boundary as int),
    {
        let b = boundary as i64;
        (x as i64) >= (self.lower_x as i64) + b && (x as i64) <= (self.upper_x as i64) - b && (y
            as i64) >= (self.lower_y as i64) + b && (y as i64) <= (self.upper_y as i64) - b && (z
            as i64) >= (self.lower_z as i64) + b && (z as i64) <= (self.upper_z as i64) - b
    }

    pub fn get_lower_corner(&self) -> (r: Vec3<i32>)
        ensures
            r.x == self.lower_x,
            r.y == self.lower_y,
            r.z == self.lower_z,
    {
        Vec3 { x: self.lower_x, y: self.lower_y, z: self.lower_z }
    }

    pub fn contains_point_in_x(&self, x: i32) -> (r: bool)
        ensures
            r == (self.lower_x <= x <= self.upper_x),
    {
        x >= self.lower_x && x <= self.upper_x
    }

    pub fn contains_point_in_y(&self, y: i32) -> (r: bool)
        ensures
            r == (self.lower_y <= y <= self.upper_y),
    {
        y >= self.lower_y && y <= self.upper_y
    }

    pub fn contains_point_in_z(&self, z: i32) -> (r: bool)
        ensures
            r == (self.lower_z <= z <= self.upper_z),
    {
        z >= self.lower_z && z <= self.upper_z
    }
}

} // verus!
