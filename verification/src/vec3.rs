use vstd::prelude::*;

verus! {

/// A plain three-component vector.
///
/// It carries positions, sizes and offsets through the crate; no geometry
/// is computed on it beyond reading the fields.
#[derive(Clone, Copy, Debug, PartialEq, Eq, Structural)]
pub struct Vec3<T> {
    pub x: T,
    pub y: T,
    pub z: T,
}

impl<T> Vec3<T> {
    pub fn new(x: T, y: T, z: T) -> (r: Self)
        ensures
            r.x == x,
            r.y == y,
            r.z == z,
    {
        Vec3 { x, y, z }
    }
}

} // verus!
