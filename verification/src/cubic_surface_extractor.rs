use vstd::prelude::*;

use crate::mesh::{
    FaceArity, Mesh, compacted_position, compacted_vertices, lemma_compacted_slots_all_used,
    position_used,
};
use crate::region::Region;
use crate::sampler::Sampler;
use crate::vec3::Vec3;
use crate::volume::voxel_lookup;
use crate::voxel::Voxel;

verus! {

/// How many distinct materials can claim one lattice point within a slab.
pub const MAX_VERTICES_PER_POSITION: usize = 8;

/// The 32-bit word that packs a vertex position: x in the low byte, then
/// y, then z.
pub open spec fn position_word(x: u8, y: u8, z: u8) -> u32 {
    (x + y * 0x100 + z * 0x10000) as u32
}

/// A mesh vertex produced by the cubic extractor: a packed position and the
/// material of the face it belongs to.
#[derive(Clone, Copy)]
pub struct CubicVertex<T: Voxel> {
    pub position: u32,
    pub data: T,
}

impl<T: Voxel> CubicVertex<T> {
    pub fn new(x: u8, y: u8, z: u8, data: T) -> (r: Self)
        ensures
            r.position == position_word(x, y, z),
            r.data == data,
    {
        CubicVertex { position: x as u32 + (y as u32 * 0x100) + (z as u32 * 0x10000), data }
    }

    /// Splits the packed position back into its three byte coordinates.
    pub fn decode(&self) -> (r: Vec3<u8>)
        ensures
            r.x == (self.position & 0xff) as u8,
            r.y == ((self.position >> 8) & 0xff) as u8,
            r.z == ((self.position >> 16) & 0xff) as u8,
    {
        Vec3 {
            x: (self.position & 0xff) as u8,
            y: ((self.position >> 8) & 0xff) as u8,
            z: ((self.position >> 16) & 0xff) as u8,
        }
    }
}

/// Decoding a packed position recovers the three coordinates.
pub proof fn lemma_position_roundtrip(x: u8, y: u8, z: u8)
    ensures
        position_word(x, y, z) & 0xff == x as u32,
        (position_word(x, y, z) >> 8) & 0xff == y as u32,
        (position_word(x, y, z) >> 16) & 0xff == z as u32,
        (position_word(x, y, z) & 0xff) as u8 == x,
        ((position_word(x, y, z) >> 8) & 0xff) as u8 == y,
        ((position_word(x, y, z) >> 16) & 0xff) as u8 == z,
{
    let w: u32 = ((x as u32) + (y as u32) * 0x100 + (z as u32) * 0x10000) as u32;
    assert(position_word(x, y, z) == w);
    assert((w & 0xff) == x && ((w >> 8) & 0xff) == y && ((w >> 16) & 0xff) == z)
        by (bit_vector)
        requires
            w == (x as u32) + (y as u32) * 0x100 + (z as u32) * 0x10000,
            x <= 0xff,
            y <= 0xff,
            z <= 0xff,
    ;
}

/// Difference of two integer points.
pub open spec fn point_sub(a: (int, int, int), b: (int, int, int)) -> (int, int, int) {
    (a.0 - b.0, a.1 - b.1, a.2 - b.2)
}

/// Cross product of two integer vectors.
pub open spec fn point_cross(a: (int, int, int), b: (int, int, int)) -> (int, int, int) {
    (a.1 * b.2 - a.2 * b.1, a.2 * b.0 - a.0 * b.2, a.0 * b.1 - a.1 * b.0)
}

/// The normal of the triangle `(a, b, c)`, from its winding.
pub open spec fn triangle_normal(a: (int, int, int), b: (int, int, int), c: (int, int, int)) -> (
    int,
    int,
    int,
) {
    point_cross(point_sub(b, a), point_sub(c, a))
}

/// One point of three integer coordinates.
pub type LatticePoint = (int, int, int);

/// Corner positions, in emission order, of the unit face that separates
/// cell `(x, y, z)` from its x-neighbour `(x - 1, y, z)`.
pub open spec fn x_face_corners(x: int, y: int, z: int) -> (
    LatticePoint,
    LatticePoint,
    LatticePoint,
    LatticePoint,
) {
    ((x, y, z), (x, y, z + 1), (x, y + 1, z + 1), (x, y + 1, z))
}

/// Corner positions, in emission order, of the unit face that separates
/// cell `(x, y, z)` from its y-neighbour `(x, y - 1, z)`.
pub open spec fn y_face_corners(x: int, y: int, z: int) -> (
    LatticePoint,
    LatticePoint,
    LatticePoint,
    LatticePoint,
) {
    ((x, y, z), (x + 1, y, z), (x + 1, y, z + 1), (x, y, z + 1))
}

/// Corner positions, in emission order, of the unit face that separates
/// cell `(x, y, z)` from its z-neighbour `(x, y, z - 1)`.
pub open spec fn z_face_corners(x: int, y: int, z: int) -> (
    LatticePoint,
    LatticePoint,
    LatticePoint,
    LatticePoint,
) {
    ((x, y, z), (x, y + 1, z), (x + 1, y + 1, z), (x + 1, y, z))
}

/// Winding parity of the emitted faces.  A face emitted in corner order
/// `(v0, v1, v2, v3)` — the order used for faces looking toward the
/// negative axis — triangulates into `(v0, v1, v2)` and `(v0, v2, v3)`,
/// and both triangle normals point toward the negative axis.  The reversed
/// order `(v0, v3, v2, v1)`, used for faces looking toward the positive
/// axis, flips both normals.
pub proof fn lemma_face_winding(x: int, y: int, z: int)
    ensures
        triangle_normal(x_face_corners(x, y, z).0, x_face_corners(x, y, z).1, x_face_corners(x, y, z).2) == (-1int, 0int, 0int),
        triangle_normal(x_face_corners(x, y, z).0, x_face_corners(x, y, z).2, x_face_corners(x, y, z).3) == (-1int, 0int, 0int),
        triangle_normal(x_face_corners(x, y, z).0, x_face_corners(x, y, z).3, x_face_corners(x, y, z).2) == (1int, 0int, 0int),
        triangle_normal(x_face_corners(x, y, z).0, x_face_corners(x, y, z).2, x_face_corners(x, y, z).1) == (1int, 0int, 0int),
        triangle_normal(y_face_corners(x, y, z).0, y_face_corners(x, y, z).1, y_face_corners(x, y, z).2) == (0int, -1int, 0int),
        triangle_normal(y_face_corners(x, y, z).0, y_face_corners(x, y, z).2, y_face_corners(x, y, z).3) == (0int, -1int, 0int),
        triangle_normal(y_face_corners(x, y, z).0, y_face_corners(x, y, z).3, y_face_corners(x, y, z).2) == (0int, 1int, 0int),
        triangle_normal(y_face_corners(x, y, z).0, y_face_corners(x, y, z).2, y_face_corners(x, y, z).1) == (0int, 1int, 0int),
        triangle_normal(z_face_corners(x, y, z).0, z_face_corners(x, y, z).1, z_face_corners(x, y, z).2) == (0int, 0int, -1int),
        triangle_normal(z_face_corners(x, y, z).0, z_face_corners(x, y, z).2, z_face_corners(x, y, z).3) == (0int, 0int, -1int),
        triangle_normal(z_face_corners(x, y, z).0, z_face_corners(x, y, z).3, z_face_corners(x, y, z).2) == (0int, 0int, 1int),
        triangle_normal(z_face_corners(x, y, z).0, z_face_corners(x, y, z).2, z_face_corners(x, y, z).1) == (0int, 0int, 1int),
{
    let cx = x_face_corners(x, y, z);
    assert(point_sub(cx.1, cx.0) == (0int, 0int, 1int));
    assert(point_sub(cx.2, cx.0) == (0int, 1int, 1int));
    assert(point_sub(cx.3, cx.0) == (0int, 1int, 0int));
    assert(point_cross((0int, 0int, 1int), (0int, 1int, 1int)) == (-1int, 0int, 0int));
    assert(point_cross((0int, 1int, 1int), (0int, 1int, 0int)) == (-1int, 0int, 0int));
    assert(point_cross((0int, 1int, 0int), (0int, 1int, 1int)) == (1int, 0int, 0int));
    assert(point_cross((0int, 1int, 1int), (0int, 0int, 1int)) == (1int, 0int, 0int));
    let cy = y_face_corners(x, y, z);
    assert(point_sub(cy.1, cy.0) == (1int, 0int, 0int));
    assert(point_sub(cy.2, cy.0) == (1int, 0int, 1int));
    assert(point_sub(cy.3, cy.0) == (0int, 0int, 1int));
    assert(point_cross((1int, 0int, 0int), (1int, 0int, 1int)) == (0int, -1int, 0int));
    assert(point_cross((1int, 0int, 1int), (0int, 0int, 1int)) == (0int, -1int, 0int));
    assert(point_cross((0int, 0int, 1int), (1int, 0int, 1int)) == (0int, 1int, 0int));
    assert(point_cross((1int, 0int, 1int), (1int, 0int, 0int)) == (0int, 1int, 0int));
    let cz = z_face_corners(x, y, z);
    assert(point_sub(cz.1, cz.0) == (0int, 1int, 0int));
    assert(point_sub(cz.2, cz.0) == (1int, 1int, 0int));
    assert(point_sub(cz.3, cz.0) == (1int, 0int, 0int));
    assert(point_cross((0int, 1int, 0int), (1int, 1int, 0int)) == (0int, 0int, -1int));
    assert(point_cross((1int, 1int, 0int), (1int, 0int, 0int)) == (0int, 0int, -1int));
    assert(point_cross((1int, 0int, 0int), (1int, 1int, 0int)) == (0int, 0int, 1int));
    assert(point_cross((1int, 1int, 0int), (0int, 1int, 0int)) == (0int, 0int, 1int));
}

/// A face between two cells, held as four mesh-vertex indices in
/// consistent winding, plus the flag the merging pass uses to mark a quad
/// that another quad absorbed.
#[derive(Clone, Copy)]
struct Quad {
    v0: i32,
    v1: i32,
    v2: i32,
    v3: i32,
    merged: bool,
}

/// All four corner indices of the quad refer to existing vertices.
spec fn quad_valid(q: Quad, vert_count: int) -> bool {
    &&& 0 <= q.v0 < vert_count
    &&& 0 <= q.v1 < vert_count
    &&& 0 <= q.v2 < vert_count
    &&& 0 <= q.v3 < vert_count
}

/// The quad that absorbing `b` into `a` yields, when `a` and `b` share an
/// edge; `None` when they share none.  The four patterns are the four
/// sides of `a`, stated as coincidences of corner indices under the
/// uniform winding of emitted quads.
spec fn merge_result(a: Quad, b: Quad) -> Option<Quad> {
    if a.v0 == b.v1 && a.v3 == b.v2 {
        Some(Quad { v0: b.v0, v3: b.v3, ..a })
    } else if a.v3 == b.v0 && a.v2 == b.v1 {
        Some(Quad { v3: b.v3, v2: b.v2, ..a })
    } else if a.v1 == b.v0 && a.v2 == b.v3 {
        Some(Quad { v1: b.v1, v2: b.v2, ..a })
    } else if a.v0 == b.v3 && a.v1 == b.v2 {
        Some(Quad { v0: b.v0, v1: b.v1, ..a })
    } else {
        None
    }
}

/// Whether the merging pass may absorb `b` into `a`: the two quads carry
/// equal material and share an edge.
spec fn mergeable<T: Voxel>(verts: Seq<CubicVertex<T>>, a: Quad, b: Quad) -> bool {
    verts[a.v0 as int].data == verts[b.v0 as int].data && merge_result(a, b) is Some
}

impl Quad {
    fn new(v0: i32, v1: i32, v2: i32, v3: i32) -> (r: Self)
        ensures
            r.v0 == v0 && r.v1 == v1 && r.v2 == v2 && r.v3 == v3,
            r.merged == false,
    {
        Quad { v0, v1, v2, v3, merged: false }
    }

    /// Absorbs `other` into `self` when the two quads carry equal material
    /// and share an edge; reports whether it did.
    fn maybe_merge<T>(&mut self, other: &Self, mesh: &Mesh<CubicVertex<T>>) -> (r: bool) where
        T: Voxel,

        requires
            quad_valid(*old(self), mesh.vertices@.len() as int),
            quad_valid(*other, mesh.vertices@.len() as int),
        ensures
            quad_valid(*final(self), mesh.vertices@.len() as int),
            final(self).merged == old(self).merged,
            r == (mesh.vertices@[old(self).v0 as int].data == mesh.vertices@[other.v0 as int].data
                && merge_result(*old(self), *other) is Some),
            r ==> *final(self) == merge_result(*old(self), *other).unwrap(),
            !r ==> *final(self) == *old(self),
    {
        proof {
            T::lemma_eq_is_structural();
        }
        // All four vertices of a given quad have the same data.
        // So just check that the first pair of vertices match.
        if mesh.vertices[self.v0 as usize].data == mesh.vertices[other.v0 as usize].data {
            if self.v0 == other.v1 && self.v3 == other.v2 {
                self.v0 = other.v0;
                self.v3 = other.v3;

                return true;
            }
            if self.v3 == other.v0 && self.v2 == other.v1 {
                self.v3 = other.v3;
                self.v2 = other.v2;

                return true;
            }
            if self.v1 == other.v0 && self.v2 == other.v3 {
                self.v1 = other.v1;
                self.v2 = other.v2;

                return true;
            }
            if self.v0 == other.v3 && self.v1 == other.v2 {
                self.v0 = other.v0;
                self.v1 = other.v1;

                return true;
            }
        }
        false
    }
}

/// One slot of the vertex-deduplication table: the mesh index of the
/// vertex recorded here, or `-1` for a free slot, plus the material that
/// claimed it.
#[derive(Clone, Copy)]
struct IndexAndMaterial<T: Voxel> {
    index: i32,
    material: T,
}

impl<T: Voxel> IndexAndMaterial<T> {
    /// A free slot: no vertex recorded yet.
    fn empty() -> (r: Self)
        ensures
            r.index == -1,
            r.material == T::default_spec(),
    {
        IndexAndMaterial { index: -1, material: T::default_value() }
    }
}

/// A dense three-dimensional scratch table, indexed `x + y * width +
/// layer * area`.
struct Array3<T> {
    data: Vec<T>,
    width: usize,
    height: usize,
    depth: usize,
    area: usize,
}

impl<T: Copy> Array3<T> {
    spec fn wf(&self) -> bool {
        &&& self.area == self.width * self.height
        &&& self.data@.len() == self.area * self.depth
    }

    fn new(width: usize, height: usize, depth: usize, fill: T) -> (r: Self)
        requires
            width * height <= usize::MAX,
            width * height * depth <= usize::MAX,
        ensures
            r.wf(),
            r.width == width && r.height == height && r.depth == depth,
            r.area == width * height,
            forall|i: int| 0 <= i < r.data@.len() ==> r.data@[i] == fill,
    {
        let area = width * height;
        proof {
            assert(width * height * depth == (width * height) * depth) by (nonlinear_arith);
        }
        let total = area * depth;
        let mut data: Vec<T> = Vec::new();
        let mut i: usize = 0;
        while i < total
            invariant
                i <= total,
                data@.len() == i,
                forall|j: int| 0 <= j < data@.len() ==> data@[j] == fill,
            decreases total - i,
        {
            data.push(fill);
            i = i + 1;
        }
        Array3 { data, width, height, depth, area }
    }
}

/// The slot of table column `(x, y)` at layer `c`.
spec fn slot_at<T: Voxel>(t: Array3<IndexAndMaterial<T>>, x: int, y: int, c: int) -> IndexAndMaterial<T> {
    t.data@[x + y * t.width + c * t.area]
}

/// The layer the slot scan of column `(x, y)` settles on, starting at `c`:
/// the first slot that is free or already claimed by `material`;
/// `MAX_VERTICES_PER_POSITION` when every slot is taken by other materials.
spec fn scan_hit<T: Voxel>(
    t: Array3<IndexAndMaterial<T>>,
    x: int,
    y: int,
    material: T,
    c: int,
) -> int
    decreases MAX_VERTICES_PER_POSITION - c,
{
    if c >= MAX_VERTICES_PER_POSITION {
        MAX_VERTICES_PER_POSITION as int
    } else if slot_at(t, x, y, c).index == -1 || slot_at(t, x, y, c).material == material {
        c
    } else {
        scan_hit(t, x, y, material, c + 1)
    }
}

/// Every occupied slot of a deduplication table refers to an existing mesh
/// vertex that carries the slot's material.
spec fn table_linked<T: Voxel>(t: Array3<IndexAndMaterial<T>>, verts: Seq<CubicVertex<T>>) -> bool {
    forall|i: int|
        0 <= i < t.data@.len() ==> (#[trigger] t.data@[i]).index == -1 || (0 <= t.data@[i].index
            < verts.len() && verts[t.data@[i].index as int].data == t.data@[i].material)
}

/// Every vertex of the sequence decodes to a position within local bounds
/// `[0, w] * [0, h] * [0, d]`.
pub open spec fn vertex_coords_in_range<T: Voxel>(
    verts: Seq<CubicVertex<T>>,
    w: int,
    h: int,
    d: int,
) -> bool {
    forall|j: int|
        0 <= j < verts.len() ==> ((#[trigger] verts[j]).position & 0xff) <= w
            && ((verts[j].position >> 8) & 0xff) <= h
            && ((verts[j].position >> 16) & 0xff) <= d
}

/// A slot coordinate maps to an offset below the table's size.
proof fn lemma_slot_index_bound(
    x: int,
    y: int,
    ct: int,
    width: int,
    height: int,
    depth: int,
    area: int,
)
    requires
        0 <= x < width,
        0 <= y < height,
        0 <= ct < depth,
        area == width * height,
    ensures
        0 <= y * width,
        0 <= ct * area,
        0 <= x + y * width + ct * area,
        x + y * width + ct * area < area * depth,
{
    assert(0 <= y * width && 0 <= ct * area && x + y * width + ct * area < (ct + 1) * area && (ct
        + 1) * area <= area * depth) by (nonlinear_arith)
        requires
            0 <= x < width,
            0 <= y < height,
            0 <= ct < depth,
            area == width * height,
    ;
}

/// Finds or creates the mesh vertex for lattice point `(x, y, z)` with the
/// given material, deduplicating through the slab table: a slot already
/// claimed by this material is reused; otherwise the first free slot at
/// `(x, y)` records a fresh vertex.  Fails when all slots at `(x, y)` are
/// claimed by other materials, or when the mesh has no index left.
fn add_vertex<T>(
    x: u32,
    y: u32,
    z: u32,
    material: T,
    existing_vertices: &mut Array3<IndexAndMaterial<T>>,
    result: &mut Mesh<CubicVertex<T>>,
) -> (r: Option<i32>) where T: Voxel
    requires
        old(existing_vertices).wf(),
        old(existing_vertices).depth == MAX_VERTICES_PER_POSITION,
        x < old(existing_vertices).width,
        y < old(existing_vertices).height,
        x <= 0xff,
        y <= 0xff,
        z <= 0xff,
        table_linked(*old(existing_vertices), old(result).vertices@),
    ensures
        final(existing_vertices).wf(),
        final(existing_vertices).width == old(existing_vertices).width,
        final(existing_vertices).height == old(existing_vertices).height,
        final(existing_vertices).depth == old(existing_vertices).depth,
        final(existing_vertices).area == old(existing_vertices).area,
        table_linked(*final(existing_vertices), final(result).vertices@),
        final(result).indices@ == old(result).indices@,
        final(result).offset == old(result).offset,
        final(result).face_arity == old(result).face_arity,
        old(result).vertices@.len() <= final(result).vertices@.len(),
        forall|j: int|
            0 <= j < old(result).vertices@.len() ==> #[trigger] final(result).vertices@[j] == old(
                result,
            ).vertices@[j],
        final(result).vertices@.len() <= old(result).vertices@.len() + 1,
        final(result).vertices@.len() > old(result).vertices@.len() ==> old(
            result,
        ).vertices@.len() < 0x7fffffff,
        final(result).vertices@.len() > old(result).vertices@.len()
            ==> final(result).vertices@.last() == (CubicVertex {
            position: position_word(x as u8, y as u8, z as u8),
            data: material,
        }),
        r is Some ==> 0 <= r.unwrap() < final(result).vertices@.len() && final(result).vertices@[
            r.unwrap() as int
        ].data == material,
        r is None ==> *final(existing_vertices) == *old(existing_vertices)
            && final(result).vertices@ == old(result).vertices@ && (old(
            result,
        ).vertices@.len() >= 0x7fffffff
            || forall|ct: int|
            0 <= ct < MAX_VERTICES_PER_POSITION
                ==> (#[trigger] old(existing_vertices).data@[x + y * old(existing_vertices).width
                + ct * old(existing_vertices).area]).index != -1 && old(
                existing_vertices,
            ).data@[x + y * old(existing_vertices).width + ct * old(existing_vertices).area].material
                != material),
        scan_hit(*old(existing_vertices), x as int, y as int, material, 0)
            == MAX_VERTICES_PER_POSITION ==> r is None,
        scan_hit(*old(existing_vertices), x as int, y as int, material, 0)
            < MAX_VERTICES_PER_POSITION && slot_at(
            *old(existing_vertices),
            x as int,
            y as int,
            scan_hit(*old(existing_vertices), x as int, y as int, material, 0),
        ).index != -1 ==> r == Some(
            slot_at(
                *old(existing_vertices),
                x as int,
                y as int,
                scan_hit(*old(existing_vertices), x as int, y as int, material, 0),
            ).index,
        ) && *final(existing_vertices) == *old(existing_vertices) && final(result).vertices@
            == old(result).vertices@,
        scan_hit(*old(existing_vertices), x as int, y as int, material, 0)
            < MAX_VERTICES_PER_POSITION && slot_at(
            *old(existing_vertices),
            x as int,
            y as int,
            scan_hit(*old(existing_vertices), x as int, y as int, material, 0),
        ).index == -1 && old(result).vertices@.len() < 0x7fffffff ==> r == Some(
            old(result).vertices@.len() as i32,
        ) && final(result).vertices@ == old(result).vertices@.push(
            CubicVertex { position: position_word(x as u8, y as u8, z as u8), data: material },
        ) && final(existing_vertices).data@ == old(existing_vertices).data@.update(
            x + y * old(existing_vertices).width + scan_hit(
                *old(existing_vertices),
                x as int,
                y as int,
                material,
                0,
            ) * old(existing_vertices).area,
            IndexAndMaterial { index: old(result).vertices@.len() as i32, material },
        ),
{
    let width = existing_vertices.width;
    let area = existing_vertices.area;

    let mut ct: usize = 0;
    while ct < MAX_VERTICES_PER_POSITION
        invariant
            existing_vertices == old(existing_vertices),
            result == old(result),
            width == existing_vertices.width,
            area == existing_vertices.area,
            existing_vertices.wf(),
            existing_vertices.depth == MAX_VERTICES_PER_POSITION,
            x < existing_vertices.width,
            y < existing_vertices.height,
            table_linked(*existing_vertices, result.vertices@),
            ct <= MAX_VERTICES_PER_POSITION,
            forall|c: int|
                0 <= c < ct ==> (#[trigger] existing_vertices.data@[x + y * width + c
                    * area]).index != -1 && existing_vertices.data@[x + y * width + c
                    * area].material != material,
            scan_hit(*existing_vertices, x as int, y as int, material, 0) == scan_hit(
                *existing_vertices,
                x as int,
                y as int,
                material,
                ct as int,
            ),
        decreases MAX_VERTICES_PER_POSITION - ct,
    {
        proof {
            T::lemma_eq_is_structural();
            lemma_slot_index_bound(
                x as int,
                y as int,
                ct as int,
                width as int,
                existing_vertices.height as int,
                existing_vertices.depth as int,
                area as int,
            );
        }
        let table_len = existing_vertices.data.len();
        proof {
            assert(x + y * width + ct * area < table_len);
        }
        let idx = x as usize + (y as usize) * width + ct * area;
        if existing_vertices.data[idx].index == -1 {
            if result.get_vertex_count() >= 0x7fffffff {
                return None;
            }
            let new_index = result.add_vertex(
                CubicVertex::<T>::new(x as u8, y as u8, z as u8, material),
            ) as i32;
            existing_vertices.data[idx] = IndexAndMaterial { index: new_index, material };

            return Some(new_index);
        }
        if existing_vertices.data[idx].material == material {
            return Some(existing_vertices.data[idx].index);
        }
        ct = ct + 1;
    }

    // no slot at this lattice point is left for this material
    None
}

/// Every quad in the bucket refers to existing vertices and is unmarked.
spec fn quads_ok(quads: Seq<Quad>, vert_count: int) -> bool {
    forall|i: int|
        0 <= i < quads.len() ==> quad_valid(#[trigger] quads[i], vert_count) && !quads[i].merged
}

/// One greedy pass over a bucket: each quad in turn tries to absorb every
/// later quad, and absorbed quads leave the bucket.  Reports whether any
/// merge happened; without one the bucket is unchanged.
fn perform_quad_merging<T>(quads: &mut Vec<Quad>, mesh: &Mesh<CubicVertex<T>>) -> (r: bool) where
    T: Voxel,

    requires
        quads_ok(old(quads)@, mesh.vertices@.len() as int),
    ensures
        quads_ok(final(quads)@, mesh.vertices@.len() as int),
        final(quads)@.len() <= old(quads)@.len(),
        old(quads)@.len() > 0 ==> final(quads)@.len() > 0,
        r ==> final(quads)@.len() < old(quads)@.len(),
        !r ==> final(quads)@ == old(quads)@,
        !r ==> forall|i: int, j: int|
            0 <= i < j < final(quads)@.len() ==> !mergeable(
                mesh.vertices@,
                #[trigger] final(quads)@[i],
                #[trigger] final(quads)@[j],
            ),
{
    let ghost orig = quads@;
    let mut merge_found = false;
    let mut p: usize = 0;
    while p < quads.len()
        invariant
            quads_ok(quads@, mesh.vertices@.len() as int),
            p <= quads@.len(),
            quads@.len() <= orig.len(),
            orig.len() > 0 ==> quads@.len() > 0,
            merge_found ==> quads@.len() < orig.len(),
            !merge_found ==> quads@ == orig,
            !merge_found ==> forall|i: int, j: int|
                0 <= i < p && i < j < orig.len() ==> !mergeable(
                    mesh.vertices@,
                    #[trigger] orig[i],
                    #[trigger] orig[j],
                ),
        decreases quads@.len() - p,
    {
        let mut a = quads[p];
        let ghost len_before = quads@.len();
        let mut j: usize = p + 1;
        while j < quads.len()
            invariant
                quads_ok(quads@, mesh.vertices@.len() as int),
                quads@.len() <= len_before,
                p < quads@.len(),
                p + 1 <= j <= quads@.len(),
                quads@.len() <= orig.len(),
                merge_found ==> quads@.len() < orig.len(),
                !merge_found ==> quads@ == orig && a == orig[p as int],
                !merge_found ==> forall|i: int, j2: int|
                    0 <= i < p && i < j2 < orig.len() ==> !mergeable(
                        mesh.vertices@,
                        #[trigger] orig[i],
                        #[trigger] orig[j2],
                    ),
                !merge_found ==> forall|j2: int|
                    p < j2 < j ==> !mergeable(mesh.vertices@, orig[p as int], #[trigger] orig[j2]),
                quad_valid(a, mesh.vertices@.len() as int),
                a.merged == false,
            decreases quads@.len() - j,
        {
            let other = quads[j];
            let merged_now = a.maybe_merge(&other, mesh);
            if merged_now {
                quads.remove(j);
                merge_found = true;
            } else {
                j = j + 1;
            }
        }
        proof {
            if !merge_found {
                assert(quads@.update(p as int, a) =~= quads@);
            }
        }
        quads[p] = a;
        p = p + 1;
    }

    merge_found
}

/// Total number of quads across a plane's buckets.
spec fn bucket_total(bs: Seq<Vec<Quad>>) -> int
    decreases bs.len(),
{
    if bs.len() == 0 {
        0
    } else {
        bucket_total(bs.drop_last()) + bs.last()@.len()
    }
}

/// The total is never negative and bounds every single bucket.
proof fn lemma_bucket_total_props(bs: Seq<Vec<Quad>>)
    ensures
        0 <= bucket_total(bs),
        forall|i: int| 0 <= i < bs.len() ==> (#[trigger] bs[i])@.len() <= bucket_total(bs),
    decreases bs.len(),
{
    if bs.len() > 0 {
        lemma_bucket_total_props(bs.drop_last());
        assert forall|i: int| 0 <= i < bs.len() implies (#[trigger] bs[i])@.len() <= bucket_total(
            bs,
        ) by {
            if i < bs.len() - 1 {
                assert(bs.drop_last()[i] == bs[i]);
            }
        }
    }
}

/// Replacing one bucket changes the total by the length difference.
proof fn lemma_bucket_total_update(bs: Seq<Vec<Quad>>, i: int, v: Vec<Quad>)
    requires
        0 <= i < bs.len(),
    ensures
        bucket_total(bs.update(i, v)) == bucket_total(bs) - bs[i]@.len() + v@.len(),
    decreases bs.len(),
{
    let u = bs.update(i, v);
    if i == bs.len() - 1 {
        assert(u.drop_last() =~= bs.drop_last());
        assert(u.last() == v);
    } else {
        assert(u.drop_last() =~= bs.drop_last().update(i, v));
        assert(u.last() == bs.last());
        lemma_bucket_total_update(bs.drop_last(), i, v);
        assert(bs.drop_last()[i] == bs[i]);
    }
}

/// Taking the front bucket out removes its length from the total.
proof fn lemma_bucket_total_pop_front(bs: Seq<Vec<Quad>>)
    requires
        bs.len() > 0,
    ensures
        bucket_total(bs.remove(0)) == bucket_total(bs) - bs[0]@.len(),
    decreases bs.len(),
{
    let t = bs.remove(0);
    if bs.len() == 1 {
        assert(t =~= Seq::<Vec<Quad>>::empty());
    } else {
        assert(t.drop_last() =~= bs.drop_last().remove(0));
        assert(t.last() == bs.last());
        lemma_bucket_total_pop_front(bs.drop_last());
        assert(bs.drop_last()[0] == bs[0]);
    }
}

/// A list of empty buckets totals zero.
proof fn lemma_bucket_total_empty(bs: Seq<Vec<Quad>>)
    requires
        forall|i: int| 0 <= i < bs.len() ==> (#[trigger] bs[i])@.len() == 0,
    ensures
        bucket_total(bs) == 0,
    decreases bs.len(),
{
    if bs.len() > 0 {
        assert forall|i: int| 0 <= i < bs.drop_last().len() implies (#[trigger] bs.drop_last()[
            i
        ])@.len() == 0 by {
            assert(bs.drop_last()[i] == bs[i]);
        }
        lemma_bucket_total_empty(bs.drop_last());
    }
}

/// The quads of all six plane sets together.
spec fn buckets_grand_total(
    nx: Seq<Vec<Quad>>,
    px: Seq<Vec<Quad>>,
    ny: Seq<Vec<Quad>>,
    py: Seq<Vec<Quad>>,
    nz: Seq<Vec<Quad>>,
    pz: Seq<Vec<Quad>>,
) -> int {
    bucket_total(nx) + bucket_total(px) + bucket_total(ny) + bucket_total(py) + bucket_total(nz)
        + bucket_total(pz)
}

/// The index stream one quad contributes: four corner indices for a quad
/// mesh, or the two triangles `(v0, v1, v2)` and `(v0, v2, v3)` for a
/// triangle mesh.
spec fn quad_indices(q: Quad, arity: FaceArity) -> Seq<i32> {
    if arity == FaceArity::Three {
        seq![q.v0, q.v1, q.v2, q.v0, q.v2, q.v3]
    } else {
        seq![q.v0, q.v1, q.v2, q.v3]
    }
}

/// The index stream a bucket of quads contributes, in bucket order.
spec fn bucket_indices(qs: Seq<Quad>, arity: FaceArity) -> Seq<i32>
    decreases qs.len(),
{
    if qs.len() == 0 {
        Seq::empty()
    } else {
        bucket_indices(qs.drop_last(), arity) + quad_indices(qs.last(), arity)
    }
}

/// The index stream a plane's buckets contribute, front bucket first.
spec fn plane_indices(bs: Seq<Vec<Quad>>, arity: FaceArity) -> Seq<i32>
    decreases bs.len(),
{
    if bs.len() == 0 {
        Seq::empty()
    } else {
        bucket_indices(bs[0]@, arity) + plane_indices(bs.remove(0), arity)
    }
}

/// Writing one more quad appends exactly its contribution.
proof fn lemma_bucket_indices_take_step(qs: Seq<Quad>, arity: FaceArity, i: int)
    requires
        0 <= i < qs.len(),
    ensures
        bucket_indices(qs.take(i + 1), arity) == bucket_indices(qs.take(i), arity)
            + quad_indices(qs[i], arity),
{
    assert(qs.take(i + 1).drop_last() =~= qs.take(i));
    assert(qs.take(i + 1).last() == qs[i]);
}

/// Merges each bucket of the plane set to a fixed point when asked, then
/// writes every remaining quad into the mesh as one quad or two triangles,
/// according to the mesh's face arity.
fn emit_quads<T>(face: Vec<Vec<Quad>>, merge_quads: bool, mesh: &mut Mesh<CubicVertex<T>>) where
    T: Voxel,

    requires
        forall|i: int|
            0 <= i < face@.len() ==> quads_ok((#[trigger] face@[i])@, old(
                mesh,
            ).vertices@.len() as int),
        old(mesh).indices_valid(),
        old(mesh).face_arity == FaceArity::Three ==> old(mesh).indices@.len() % 3 == 0,
        old(mesh).face_arity == FaceArity::Four ==> old(mesh).indices@.len() % 4 == 0,
    ensures
        final(mesh).vertices@ == old(mesh).vertices@,
        final(mesh).offset == old(mesh).offset,
        final(mesh).face_arity == old(mesh).face_arity,
        final(mesh).indices_valid(),
        final(mesh).face_arity == FaceArity::Three ==> final(mesh).indices@.len() % 3 == 0,
        final(mesh).face_arity == FaceArity::Four ==> final(mesh).indices@.len() % 4 == 0,
        (forall|i: int| 0 <= i < face@.len() ==> (#[trigger] face@[i])@.len() == 0) && old(
            mesh,
        ).indices@.len() == 0 ==> final(mesh).indices@.len() == 0,
        final(mesh).indices@.len() >= old(mesh).indices@.len(),
        merge_quads == false ==> final(mesh).indices@.len() == old(mesh).indices@.len()
            + arity_factor(old(mesh).face_arity) * bucket_total(face@),
        merge_quads == false ==> final(mesh).indices@ == old(mesh).indices@ + plane_indices(
            face@,
            old(mesh).face_arity,
        ),
        bucket_total(face@) == 0 ==> final(mesh).indices@ == old(mesh).indices@,
        bucket_total(face@) > 0 ==> final(mesh).indices@.len() > old(mesh).indices@.len(),
{
    let ghost face0 = face@;
    proof {
        lemma_bucket_total_props(face0);
    }
    let mut face = face;
    while face.len() > 0
        invariant
            mesh.vertices@ == old(mesh).vertices@,
            mesh.offset == old(mesh).offset,
            mesh.face_arity == old(mesh).face_arity,
            mesh.indices_valid(),
            mesh.face_arity == FaceArity::Three ==> mesh.indices@.len() % 3 == 0,
            mesh.face_arity == FaceArity::Four ==> mesh.indices@.len() % 4 == 0,
            forall|i: int|
                0 <= i < face@.len() ==> quads_ok((#[trigger] face@[i])@,
                mesh.vertices@.len() as int),
            (forall|i: int| 0 <= i < face0.len() ==> (#[trigger] face0[i])@.len() == 0) && old(
                mesh,
            ).indices@.len() == 0 ==> (mesh.indices@.len() == 0 && forall|i: int|
                0 <= i < face@.len() ==> (#[trigger] face@[i])@.len() == 0),
            mesh.indices@.len() >= old(mesh).indices@.len(),
            0 <= bucket_total(face@) <= bucket_total(face0),
            merge_quads == false ==> mesh.indices@.len() == old(mesh).indices@.len()
                + arity_factor(old(mesh).face_arity) * (bucket_total(face0) - bucket_total(
                face@,
            )),
            merge_quads == false ==> old(mesh).indices@ + plane_indices(
                face0,
                old(mesh).face_arity,
            ) == mesh.indices@ + plane_indices(face@, old(mesh).face_arity),
            bucket_total(face0) == 0 ==> mesh.indices@ == old(mesh).indices@,
            bucket_total(face0) > bucket_total(face@) ==> mesh.indices@.len() > old(
                mesh,
            ).indices@.len(),
        decreases face@.len(),
    {
        let ghost face_pre = face@;
        proof {
            lemma_bucket_total_pop_front(face_pre);
            lemma_bucket_total_props(face_pre);
            lemma_bucket_total_props(face_pre.remove(0));
        }
        let mut quads = face.remove(0);
        let ghost bucket0 = quads@;
        let ghost bucket0_len = quads@.len();

        if merge_quads {
            let mut merging = true;
            while merging
                invariant
                    quads_ok(quads@, mesh.vertices@.len() as int),
                    quads@.len() <= bucket0_len,
                    bucket0_len > 0 ==> quads@.len() > 0,
                decreases quads@.len() * 2 + (if merging {
                    1int
                } else {
                    0int
                }),
            {
                merging = perform_quad_merging(&mut quads, mesh);
            }
        }
        let ghost ilen0 = mesh.indices@.len();
        let ghost idx_pre = mesh.indices@;

        match mesh.face_arity() {
            FaceArity::Three => {
                let mut qi: usize = 0;
                while qi < quads.len()
                    invariant
                        mesh.face_arity == FaceArity::Three,
                        mesh.vertices@ == old(mesh).vertices@,
                        mesh.offset == old(mesh).offset,
                        quads_ok(quads@, mesh.vertices@.len() as int),
                        mesh.indices_valid(),
                        qi <= quads@.len(),
                        mesh.indices@.len() == ilen0 + 6 * qi,
                        qi == 0 ==> mesh.indices@ == idx_pre,
                        mesh.indices@ == idx_pre + bucket_indices(
                            quads@.take(qi as int),
                            FaceArity::Three,
                        ),
                        ilen0 % 3 == 0,
                    decreases quads@.len() - qi,
                {
                    let quad = quads[qi];
                    mesh.add_triangle(quad.v0, quad.v1, quad.v2);
                    mesh.add_triangle(quad.v0, quad.v2, quad.v3);
                    proof {
                        lemma_bucket_indices_take_step(quads@, FaceArity::Three, qi as int);
                        assert(mesh.indices@ =~= idx_pre + bucket_indices(
                            quads@.take(qi as int + 1),
                            FaceArity::Three,
                        ));
                    }
                    qi = qi + 1;
                }
            },
            FaceArity::Four => {
                let mut qi: usize = 0;
                while qi < quads.len()
                    invariant
                        mesh.face_arity == FaceArity::Four,
                        mesh.vertices@ == old(mesh).vertices@,
                        mesh.offset == old(mesh).offset,
                        quads_ok(quads@, mesh.vertices@.len() as int),
                        mesh.indices_valid(),
                        qi <= quads@.len(),
                        mesh.indices@.len() == ilen0 + 4 * qi,
                        qi == 0 ==> mesh.indices@ == idx_pre,
                        mesh.indices@ == idx_pre + bucket_indices(
                            quads@.take(qi as int),
                            FaceArity::Four,
                        ),
                        ilen0 % 4 == 0,
                    decreases quads@.len() - qi,
                {
                    let quad = quads[qi];
                    mesh.add_quad(quad.v0, quad.v1, quad.v2, quad.v3);
                    proof {
                        lemma_bucket_indices_take_step(quads@, FaceArity::Four, qi as int);
                        assert(mesh.indices@ =~= idx_pre + bucket_indices(
                            quads@.take(qi as int + 1),
                            FaceArity::Four,
                        ));
                    }
                    qi = qi + 1;
                }
            },
        }
        proof {
            assert(quads@.take(quads@.len() as int) =~= quads@);
            if !merge_quads {
                assert(quads@ == bucket0 && bucket0 == face_pre[0]@);
                assert(face@ == face_pre.remove(0));
                assert(old(mesh).indices@ + plane_indices(face0, old(mesh).face_arity)
                    =~= mesh.indices@ + plane_indices(face@, old(mesh).face_arity));
            }
        }
    }
}

/// Emits all six plane sets into the mesh, one after the other, in the
/// fixed plane order.  With merging off the index stream grows by exactly
/// one face's worth of indices per bucketed quad.
fn emit_all_planes<T>(
    neg_x_quads: Vec<Vec<Quad>>,
    pos_x_quads: Vec<Vec<Quad>>,
    neg_y_quads: Vec<Vec<Quad>>,
    pos_y_quads: Vec<Vec<Quad>>,
    neg_z_quads: Vec<Vec<Quad>>,
    pos_z_quads: Vec<Vec<Quad>>,
    merge_quads: bool,
    mesh: &mut Mesh<CubicVertex<T>>,
) where T: Voxel
    requires
        plane_buckets_ok(neg_x_quads@, old(mesh).vertices@.len() as int),
        plane_buckets_ok(pos_x_quads@, old(mesh).vertices@.len() as int),
        plane_buckets_ok(neg_y_quads@, old(mesh).vertices@.len() as int),
        plane_buckets_ok(pos_y_quads@, old(mesh).vertices@.len() as int),
        plane_buckets_ok(neg_z_quads@, old(mesh).vertices@.len() as int),
        plane_buckets_ok(pos_z_quads@, old(mesh).vertices@.len() as int),
        old(mesh).indices_valid(),
        old(mesh).face_arity == FaceArity::Three ==> old(mesh).indices@.len() % 3 == 0,
        old(mesh).face_arity == FaceArity::Four ==> old(mesh).indices@.len() % 4 == 0,
    ensures
        final(mesh).vertices@ == old(mesh).vertices@,
        final(mesh).offset == old(mesh).offset,
        final(mesh).face_arity == old(mesh).face_arity,
        final(mesh).indices_valid(),
        final(mesh).face_arity == FaceArity::Three ==> final(mesh).indices@.len() % 3 == 0,
        final(mesh).face_arity == FaceArity::Four ==> final(mesh).indices@.len() % 4 == 0,
        final(mesh).indices@.len() >= old(mesh).indices@.len(),
        merge_quads == false ==> final(mesh).indices@.len() == old(mesh).indices@.len()
            + arity_factor(old(mesh).face_arity) * buckets_grand_total(
            neg_x_quads@,
            pos_x_quads@,
            neg_y_quads@,
            pos_y_quads@,
            neg_z_quads@,
            pos_z_quads@,
        ),
        buckets_grand_total(
            neg_x_quads@,
            pos_x_quads@,
            neg_y_quads@,
            pos_y_quads@,
            neg_z_quads@,
            pos_z_quads@,
        ) == 0 ==> final(mesh).indices@ == old(mesh).indices@,
        buckets_grand_total(
            neg_x_quads@,
            pos_x_quads@,
            neg_y_quads@,
            pos_y_quads@,
            neg_z_quads@,
            pos_z_quads@,
        ) > 0 ==> final(mesh).indices@.len() > old(mesh).indices@.len(),
{
    let ghost arity0 = mesh.face_arity;
    let ghost t_nx = bucket_total(neg_x_quads@);
    let ghost t_px = bucket_total(pos_x_quads@);
    let ghost t_ny = bucket_total(neg_y_quads@);
    let ghost t_py = bucket_total(pos_y_quads@);
    let ghost t_nz = bucket_total(neg_z_quads@);
    let ghost t_pz = bucket_total(pos_z_quads@);
    proof {
        lemma_bucket_total_props(neg_x_quads@);
        lemma_bucket_total_props(pos_x_quads@);
        lemma_bucket_total_props(neg_y_quads@);
        lemma_bucket_total_props(pos_y_quads@);
        lemma_bucket_total_props(neg_z_quads@);
        lemma_bucket_total_props(pos_z_quads@);
    }
    let ghost l0 = mesh.indices@.len();
    emit_quads(pos_x_quads, merge_quads, mesh);
    let ghost l1 = mesh.indices@.len();
    emit_quads(neg_x_quads, merge_quads, mesh);
    let ghost l2 = mesh.indices@.len();
    emit_quads(pos_y_quads, merge_quads, mesh);
    let ghost l3 = mesh.indices@.len();
    emit_quads(neg_y_quads, merge_quads, mesh);
    let ghost l4 = mesh.indices@.len();
    emit_quads(pos_z_quads, merge_quads, mesh);
    let ghost l5 = mesh.indices@.len();
    emit_quads(neg_z_quads, merge_quads, mesh);
    proof {
        if !merge_quads {
            if arity0 == FaceArity::Three {
                assert(l1 == l0 + 6 * t_px);
                assert(l2 == l1 + 6 * t_nx);
                assert(l3 == l2 + 6 * t_py);
                assert(l4 == l3 + 6 * t_ny);
                assert(l5 == l4 + 6 * t_pz);
                assert(mesh.indices@.len() == l5 + 6 * t_nz);
                assert(mesh.indices@.len() == l0 + 6 * (t_px + t_nx + t_py + t_ny + t_pz
                    + t_nz));
            } else {
                assert(l1 == l0 + 4 * t_px);
                assert(l2 == l1 + 4 * t_nx);
                assert(l3 == l2 + 4 * t_py);
                assert(l4 == l3 + 4 * t_ny);
                assert(l5 == l4 + 4 * t_pz);
                assert(mesh.indices@.len() == l5 + 4 * t_nz);
                assert(mesh.indices@.len() == l0 + 4 * (t_px + t_nx + t_py + t_ny + t_pz
                    + t_nz));
            }
        }
    }
}

/// A bucket list of `len` empty per-plane buckets.
fn make_buckets(len: usize) -> (r: Vec<Vec<Quad>>)
    ensures
        r@.len() == len,
        forall|i: int| 0 <= i < r@.len() ==> (#[trigger] r@[i])@.len() == 0,
{
    let mut r: Vec<Vec<Quad>> = Vec::new();
    let mut i: usize = 0;
    while i < len
        invariant
            i <= len,
            r@.len() == i,
            forall|j: int| 0 <= j < r@.len() ==> (#[trigger] r@[j])@.len() == 0,
        decreases len - i,
    {
        r.push(Vec::new());
        i = i + 1;
    }
    r
}

/// Any voxel value a sampler over this store can hand out: a stored voxel
/// or the border value.
pub open spec fn obtainable<T: Voxel>(data: Seq<T>, border: T, v: T) -> bool {
    v == border || exists|i: int| 0 <= i < data.len() && data[i] == v
}

/// The face predicate emits nothing for any pair of voxel values the store
/// can hand out.
pub open spec fn predicate_quiet<T: Voxel, F: Fn(&T, &T) -> Option<T>>(
    f: F,
    data: Seq<T>,
    border: T,
) -> bool {
    forall|a: &T, b: &T, m: Option<T>|
        obtainable(data, border, *a) && obtainable(data, border, *b) && #[trigger] call_ensures(
            f,
            (a, b),
            m,
        ) ==> m is None
}

/// What the cursor reads is a value the store can hand out.
proof fn lemma_lookup_obtainable<T: Voxel>(
    region: Region,
    data: Seq<T>,
    border: T,
    x: int,
    y: int,
    z: int,
)
    requires
        region.wf(),
        data.len() == region.volume_spec(),
    ensures
        obtainable(data, border, voxel_lookup(region, data, border, x, y, z)),
{
    if region.contains_spec(x, y, z) {
        region.lemma_linear_index_bounds(x, y, z);
        let i = region.linear_index(x, y, z);
        assert(data[i] == voxel_lookup(region, data, border, x, y, z));
    }
}


/// Adds the four corner vertices of an x-facing unit face of cell
/// `(reg_x, reg_y, reg_z)`, in corner-table order, deduplicating through
/// the two slab tables.
fn add_x_face_vertices<T>(
    reg_x: u32,
    reg_y: u32,
    reg_z: u32,
    material: T,
    prev_slice_vertices: &mut Array3<IndexAndMaterial<T>>,
    current_slice_vertices: &mut Array3<IndexAndMaterial<T>>,
    result: &mut Mesh<CubicVertex<T>>,
) -> (r: Option<(i32, i32, i32, i32)>) where T: Voxel
    requires
        old(prev_slice_vertices).wf(),
        old(prev_slice_vertices).depth == MAX_VERTICES_PER_POSITION,
        old(current_slice_vertices).wf(),
        old(current_slice_vertices).depth == MAX_VERTICES_PER_POSITION,
        old(current_slice_vertices).width == old(prev_slice_vertices).width,
        old(current_slice_vertices).height == old(prev_slice_vertices).height,
        reg_x + 1 < old(prev_slice_vertices).width,
        reg_y + 1 < old(prev_slice_vertices).height,
        reg_x + 1 <= 0xff,
        reg_y + 1 <= 0xff,
        reg_z + 1 <= 0xff,
        table_linked(*old(prev_slice_vertices), old(result).vertices@),
        table_linked(*old(current_slice_vertices), old(result).vertices@),
    ensures
        final(prev_slice_vertices).wf(),
        final(prev_slice_vertices).width == old(prev_slice_vertices).width,
        final(prev_slice_vertices).height == old(prev_slice_vertices).height,
        final(prev_slice_vertices).depth == old(prev_slice_vertices).depth,
        final(current_slice_vertices).wf(),
        final(current_slice_vertices).width == old(current_slice_vertices).width,
        final(current_slice_vertices).height == old(current_slice_vertices).height,
        final(current_slice_vertices).depth == old(current_slice_vertices).depth,
        table_linked(*final(prev_slice_vertices), final(result).vertices@),
        table_linked(*final(current_slice_vertices), final(result).vertices@),
        final(result).indices@ == old(result).indices@,
        final(result).offset == old(result).offset,
        final(result).face_arity == old(result).face_arity,
        old(result).vertices@.len() <= final(result).vertices@.len(),
        forall|j: int|
            0 <= j < old(result).vertices@.len() ==> #[trigger] final(result).vertices@[j] == old(
                result,
            ).vertices@[j],
        old(result).vertices@.len() <= 0x7fffffff ==> final(result).vertices@.len()
            <= 0x7fffffff,
        r is Some ==> 0 <= r.unwrap().0 < final(result).vertices@.len() && 0 <= r.unwrap().1
            < final(result).vertices@.len() && 0 <= r.unwrap().2 < final(result).vertices@.len()
            && 0 <= r.unwrap().3 < final(result).vertices@.len(),
        r is Some ==> final(result).vertices@[r.unwrap().0 as int].data == material
            && final(result).vertices@[r.unwrap().1 as int].data == material
            && final(result).vertices@[r.unwrap().2 as int].data == material
            && final(result).vertices@[r.unwrap().3 as int].data == material,
        forall|j: int|
            old(result).vertices@.len() <= j < final(result).vertices@.len() ==> ((#[trigger]
            final(result).vertices@[j]).position & 0xff) <= reg_x
                && ((final(result).vertices@[j].position >> 8) & 0xff) <= reg_y + 1
                && ((final(result).vertices@[j].position >> 16) & 0xff) <= reg_z + 1,
{
    proof {
        lemma_position_roundtrip(reg_x as u8, reg_y as u8, reg_z as u8);
        lemma_position_roundtrip(reg_x as u8, reg_y as u8, (reg_z + 1) as u8);
        lemma_position_roundtrip(reg_x as u8, (reg_y + 1) as u8, (reg_z + 1) as u8);
        lemma_position_roundtrip(reg_x as u8, (reg_y + 1) as u8, reg_z as u8);
    }
    let v0 = match add_vertex(reg_x, reg_y, reg_z, material, prev_slice_vertices, result) {
        Some(v) => v,
        None => { return None; },
    };
    let v1 = match add_vertex(reg_x, reg_y, reg_z + 1, material, current_slice_vertices, result) {
        Some(v) => v,
        None => { return None; },
    };
    let v2 = match add_vertex(
        reg_x,
        reg_y + 1,
        reg_z + 1,
        material,
        current_slice_vertices,
        result,
    ) {
        Some(v) => v,
        None => { return None; },
    };
    let v3 = match add_vertex(reg_x, reg_y + 1, reg_z, material, prev_slice_vertices, result) {
        Some(v) => v,
        None => { return None; },
    };
    Some((v0, v1, v2, v3))
}

/// Adds the four corner vertices of a y-facing unit face of cell
/// `(reg_x, reg_y, reg_z)`, in corner-table order.
fn add_y_face_vertices<T>(
    reg_x: u32,
    reg_y: u32,
    reg_z: u32,
    material: T,
    prev_slice_vertices: &mut Array3<IndexAndMaterial<T>>,
    current_slice_vertices: &mut Array3<IndexAndMaterial<T>>,
    result: &mut Mesh<CubicVertex<T>>,
) -> (r: Option<(i32, i32, i32, i32)>) where T: Voxel
    requires
        old(prev_slice_vertices).wf(),
        old(prev_slice_vertices).depth == MAX_VERTICES_PER_POSITION,
        old(current_slice_vertices).wf(),
        old(current_slice_vertices).depth == MAX_VERTICES_PER_POSITION,
        old(current_slice_vertices).width == old(prev_slice_vertices).width,
        old(current_slice_vertices).height == old(prev_slice_vertices).height,
        reg_x + 1 < old(prev_slice_vertices).width,
        reg_y + 1 < old(prev_slice_vertices).height,
        reg_x + 1 <= 0xff,
        reg_y + 1 <= 0xff,
        reg_z + 1 <= 0xff,
        table_linked(*old(prev_slice_vertices), old(result).vertices@),
        table_linked(*old(current_slice_vertices), old(result).vertices@),
    ensures
        final(prev_slice_vertices).wf(),
        final(prev_slice_vertices).width == old(prev_slice_vertices).width,
        final(prev_slice_vertices).height == old(prev_slice_vertices).height,
        final(prev_slice_vertices).depth == old(prev_slice_vertices).depth,
        final(current_slice_vertices).wf(),
        final(current_slice_vertices).width == old(current_slice_vertices).width,
        final(current_slice_vertices).height == old(current_slice_vertices).height,
        final(current_slice_vertices).depth == old(current_slice_vertices).depth,
        table_linked(*final(prev_slice_vertices), final(result).vertices@),
        table_linked(*final(current_slice_vertices), final(result).vertices@),
        final(result).indices@ == old(result).indices@,
        final(result).offset == old(result).offset,
        final(result).face_arity == old(result).face_arity,
        old(result).vertices@.len() <= final(result).vertices@.len(),
        forall|j: int|
            0 <= j < old(result).vertices@.len() ==> #[trigger] final(result).vertices@[j] == old(
                result,
            ).vertices@[j],
        old(result).vertices@.len() <= 0x7fffffff ==> final(result).vertices@.len()
            <= 0x7fffffff,
        r is Some ==> 0 <= r.unwrap().0 < final(result).vertices@.len() && 0 <= r.unwrap().1
            < final(result).vertices@.len() && 0 <= r.unwrap().2 < final(result).vertices@.len()
            && 0 <= r.unwrap().3 < final(result).vertices@.len(),
        r is Some ==> final(result).vertices@[r.unwrap().0 as int].data == material
            && final(result).vertices@[r.unwrap().1 as int].data == material
            && final(result).vertices@[r.unwrap().2 as int].data == material
            && final(result).vertices@[r.unwrap().3 as int].data == material,
        forall|j: int|
            old(result).vertices@.len() <= j < final(result).vertices@.len() ==> ((#[trigger]
            final(result).vertices@[j]).position & 0xff) <= reg_x + 1
                && ((final(result).vertices@[j].position >> 8) & 0xff) <= reg_y
                && ((final(result).vertices@[j].position >> 16) & 0xff) <= reg_z + 1,
{
    proof {
        lemma_position_roundtrip(reg_x as u8, reg_y as u8, reg_z as u8);
        lemma_position_roundtrip((reg_x + 1) as u8, reg_y as u8, reg_z as u8);
        lemma_position_roundtrip((reg_x + 1) as u8, reg_y as u8, (reg_z + 1) as u8);
        lemma_position_roundtrip(reg_x as u8, reg_y as u8, (reg_z + 1) as u8);
    }
    let v0 = match add_vertex(reg_x, reg_y, reg_z, material, prev_slice_vertices, result) {
        Some(v) => v,
        None => { return None; },
    };
    let v1 = match add_vertex(reg_x + 1, reg_y, reg_z, material, prev_slice_vertices, result) {
        Some(v) => v,
        None => { return None; },
    };
    let v2 = match add_vertex(
        reg_x + 1,
        reg_y,
        reg_z + 1,
        material,
        current_slice_vertices,
        result,
    ) {
        Some(v) => v,
        None => { return None; },
    };
    let v3 = match add_vertex(reg_x, reg_y, reg_z + 1, material, current_slice_vertices, result) {
        Some(v) => v,
        None => { return None; },
    };
    Some((v0, v1, v2, v3))
}

/// Adds the four corner vertices of a z-facing unit face of cell
/// `(reg_x, reg_y, reg_z)`, in corner-table order.  All four corners lie
/// on the slab's lower plane.
fn add_z_face_vertices<T>(
    reg_x: u32,
    reg_y: u32,
    reg_z: u32,
    material: T,
    prev_slice_vertices: &mut Array3<IndexAndMaterial<T>>,
    result: &mut Mesh<CubicVertex<T>>,
) -> (r: Option<(i32, i32, i32, i32)>) where T: Voxel
    requires
        old(prev_slice_vertices).wf(),
        old(prev_slice_vertices).depth == MAX_VERTICES_PER_POSITION,
        reg_x + 1 < old(prev_slice_vertices).width,
        reg_y + 1 < old(prev_slice_vertices).height,
        reg_x + 1 <= 0xff,
        reg_y + 1 <= 0xff,
        reg_z <= 0xff,
        table_linked(*old(prev_slice_vertices), old(result).vertices@),
    ensures
        final(prev_slice_vertices).wf(),
        final(prev_slice_vertices).width == old(prev_slice_vertices).width,
        final(prev_slice_vertices).height == old(prev_slice_vertices).height,
        final(prev_slice_vertices).depth == old(prev_slice_vertices).depth,
        table_linked(*final(prev_slice_vertices), final(result).vertices@),
        final(result).indices@ == old(result).indices@,
        final(result).offset == old(result).offset,
        final(result).face_arity == old(result).face_arity,
        old(result).vertices@.len() <= final(result).vertices@.len(),
        forall|j: int|
            0 <= j < old(result).vertices@.len() ==> #[trigger] final(result).vertices@[j] == old(
                result,
            ).vertices@[j],
        old(result).vertices@.len() <= 0x7fffffff ==> final(result).vertices@.len()
            <= 0x7fffffff,
        r is Some ==> 0 <= r.unwrap().0 < final(result).vertices@.len() && 0 <= r.unwrap().1
            < final(result).vertices@.len() && 0 <= r.unwrap().2 < final(result).vertices@.len()
            && 0 <= r.unwrap().3 < final(result).vertices@.len(),
        r is Some ==> final(result).vertices@[r.unwrap().0 as int].data == material
            && final(result).vertices@[r.unwrap().1 as int].data == material
            && final(result).vertices@[r.unwrap().2 as int].data == material
            && final(result).vertices@[r.unwrap().3 as int].data == material,
        forall|j: int|
            old(result).vertices@.len() <= j < final(result).vertices@.len() ==> ((#[trigger]
            final(result).vertices@[j]).position & 0xff) <= reg_x + 1
                && ((final(result).vertices@[j].position >> 8) & 0xff) <= reg_y + 1
                && ((final(result).vertices@[j].position >> 16) & 0xff) <= reg_z,
{
    proof {
        lemma_position_roundtrip(reg_x as u8, reg_y as u8, reg_z as u8);
        lemma_position_roundtrip(reg_x as u8, (reg_y + 1) as u8, reg_z as u8);
        lemma_position_roundtrip((reg_x + 1) as u8, (reg_y + 1) as u8, reg_z as u8);
        lemma_position_roundtrip((reg_x + 1) as u8, reg_y as u8, reg_z as u8);
    }
    let v0 = match add_vertex(reg_x, reg_y, reg_z, material, prev_slice_vertices, result) {
        Some(v) => v,
        None => { return None; },
    };
    let v1 = match add_vertex(reg_x, reg_y + 1, reg_z, material, prev_slice_vertices, result) {
        Some(v) => v,
        None => { return None; },
    };
    let v2 = match add_vertex(reg_x + 1, reg_y + 1, reg_z, material, prev_slice_vertices, result)
        {
        Some(v) => v,
        None => { return None; },
    };
    let v3 = match add_vertex(reg_x + 1, reg_y, reg_z, material, prev_slice_vertices, result) {
        Some(v) => v,
        None => { return None; },
    };
    Some((v0, v1, v2, v3))
}

/// Per-plane bucket lists: every bucket holds only valid, unmarked quads.
spec fn plane_buckets_ok(bs: Seq<Vec<Quad>>, vert_count: int) -> bool {
    forall|i: int| 0 <= i < bs.len() ==> quads_ok((#[trigger] bs[i])@, vert_count)
}

spec fn plane_buckets_empty(bs: Seq<Vec<Quad>>) -> bool {
    forall|i: int| 0 <= i < bs.len() ==> (#[trigger] bs[i])@.len() == 0
}

/// Every voxel of the store, and its border value, is empty space.
pub open spec fn store_all_empty<T: Voxel>(data: Seq<T>, border: T) -> bool {
    border.is_empty_spec() && forall|i: int|
        0 <= i < data.len() ==> (#[trigger] data[i]).is_empty_spec()
}

/// One face per `Some` the face rule returns.
pub open spec fn face_rule_hits<T>(m: Option<T>) -> int {
    if m is Some {
        1int
    } else {
        0int
    }
}

/// `fs` describes the face predicate: whatever the predicate can return
/// for a pair of voxels is exactly what `fs` gives for that pair.
pub open spec fn rule_describes<T: Voxel, F: Fn(&T, &T) -> Option<T>>(
    f: F,
    fs: spec_fn(T, T) -> Option<T>,
) -> bool {
    forall|a: &T, b: &T, m: Option<T>| #[trigger] call_ensures(f, (a, b), m) ==> m == fs(*a, *b)
}

/// How many faces the sweep emits at cell `(x, y, z)` toward its
/// x-neighbour `(x - 1, y, z)`: the rule is asked in both orientations,
/// provided the interface touches the extraction region `er`.  The voxels
/// are read from the store `(sr, data, border)`.
pub open spec fn cell_x_faces<T: Voxel>(
    fs: spec_fn(T, T) -> Option<T>,
    sr: Region,
    data: Seq<T>,
    border: T,
    er: Region,
    x: int,
    y: int,
    z: int,
) -> int {
    if er.contains_spec(x, y, z) || er.contains_spec(x - 1, y, z) {
        face_rule_hits(
            fs(
                voxel_lookup(sr, data, border, x, y, z),
                voxel_lookup(sr, data, border, x - 1, y, z),
            ),
        ) + face_rule_hits(
            fs(
                voxel_lookup(sr, data, border, x - 1, y, z),
                voxel_lookup(sr, data, border, x, y, z),
            ),
        )
    } else {
        0
    }
}

/// As `cell_x_faces`, for the interface toward `(x, y - 1, z)`.
pub open spec fn cell_y_faces<T: Voxel>(
    fs: spec_fn(T, T) -> Option<T>,
    sr: Region,
    data: Seq<T>,
    border: T,
    er: Region,
    x: int,
    y: int,
    z: int,
) -> int {
    if er.contains_spec(x, y, z) || er.contains_spec(x, y - 1, z) {
        face_rule_hits(
            fs(
                voxel_lookup(sr, data, border, x, y, z),
                voxel_lookup(sr, data, border, x, y - 1, z),
            ),
        ) + face_rule_hits(
            fs(
                voxel_lookup(sr, data, border, x, y - 1, z),
                voxel_lookup(sr, data, border, x, y, z),
            ),
        )
    } else {
        0
    }
}

/// As `cell_x_faces`, for the interface toward `(x, y, z - 1)`.
pub open spec fn cell_z_faces<T: Voxel>(
    fs: spec_fn(T, T) -> Option<T>,
    sr: Region,
    data: Seq<T>,
    border: T,
    er: Region,
    x: int,
    y: int,
    z: int,
) -> int {
    if er.contains_spec(x, y, z) || er.contains_spec(x, y, z - 1) {
        face_rule_hits(
            fs(
                voxel_lookup(sr, data, border, x, y, z),
                voxel_lookup(sr, data, border, x, y, z - 1),
            ),
        ) + face_rule_hits(
            fs(
                voxel_lookup(sr, data, border, x, y, z - 1),
                voxel_lookup(sr, data, border, x, y, z),
            ),
        )
    } else {
        0
    }
}

/// All faces the sweep emits at cell `(x, y, z)`.
pub open spec fn cell_face_count<T: Voxel>(
    fs: spec_fn(T, T) -> Option<T>,
    sr: Region,
    data: Seq<T>,
    border: T,
    er: Region,
    x: int,
    y: int,
    z: int,
) -> int {
    cell_x_faces(fs, sr, data, border, er, x, y, z) + cell_y_faces(
        fs,
        sr,
        data,
        border,
        er,
        x,
        y,
        z,
    ) + cell_z_faces(fs, sr, data, border, er, x, y, z)
}

/// Faces emitted in row `(y, z)` by the cells with x below `x_hi`.
pub open spec fn row_face_count<T: Voxel>(
    fs: spec_fn(T, T) -> Option<T>,
    sr: Region,
    data: Seq<T>,
    border: T,
    er: Region,
    y: int,
    z: int,
    x_hi: int,
) -> int
    decreases x_hi - er.lower_x,
{
    if x_hi <= er.lower_x {
        0
    } else {
        row_face_count(fs, sr, data, border, er, y, z, x_hi - 1) + cell_face_count(
            fs,
            sr,
            data,
            border,
            er,
            x_hi - 1,
            y,
            z,
        )
    }
}

/// Faces emitted in slab `z` by the full rows with y below `y_hi`.
pub open spec fn slab_face_count<T: Voxel>(
    fs: spec_fn(T, T) -> Option<T>,
    sr: Region,
    data: Seq<T>,
    border: T,
    er: Region,
    z: int,
    y_hi: int,
) -> int
    decreases y_hi - er.lower_y,
{
    if y_hi <= er.lower_y {
        0
    } else {
        slab_face_count(fs, sr, data, border, er, z, y_hi - 1) + row_face_count(
            fs,
            sr,
            data,
            border,
            er,
            y_hi - 1,
            z,
            er.upper_x + 2,
        )
    }
}

/// Faces emitted by the full slabs with z below `z_hi`.
pub open spec fn region_face_count<T: Voxel>(
    fs: spec_fn(T, T) -> Option<T>,
    sr: Region,
    data: Seq<T>,
    border: T,
    er: Region,
    z_hi: int,
) -> int
    decreases z_hi - er.lower_z,
{
    if z_hi <= er.lower_z {
        0
    } else {
        region_face_count(fs, sr, data, border, er, z_hi - 1) + slab_face_count(
            fs,
            sr,
            data,
            border,
            er,
            z_hi - 1,
            er.upper_y + 2,
        )
    }
}

/// All faces the sweep over extraction region `er` emits from the store
/// `(sr, data, border)` under face rule `fs`: the rule is asked, in both
/// orientations, about every inter-voxel interface touching `er`.
pub open spec fn sweep_face_count<T: Voxel>(
    fs: spec_fn(T, T) -> Option<T>,
    sr: Region,
    data: Seq<T>,
    border: T,
    er: Region,
) -> int {
    region_face_count(fs, sr, data, border, er, er.upper_z + 2)
}

/// How many indices one face contributes under the given arity.
pub open spec fn arity_factor(arity: FaceArity) -> int {
    if arity == FaceArity::Three {
        6int
    } else {
        4int
    }
}

/// Row counts grow with the cell bound.
proof fn lemma_row_count_mono<T: Voxel>(
    fs: spec_fn(T, T) -> Option<T>,
    sr: Region,
    data: Seq<T>,
    border: T,
    er: Region,
    y: int,
    z: int,
    a: int,
    b: int,
)
    requires
        a <= b,
    ensures
        row_face_count(fs, sr, data, border, er, y, z, a) <= row_face_count(
            fs,
            sr,
            data,
            border,
            er,
            y,
            z,
            b,
        ),
    decreases b - a,
{
    if a < b {
        lemma_row_count_mono(fs, sr, data, border, er, y, z, a, b - 1);
    }
}

/// Slab counts grow with the row bound.
proof fn lemma_slab_count_mono<T: Voxel>(
    fs: spec_fn(T, T) -> Option<T>,
    sr: Region,
    data: Seq<T>,
    border: T,
    er: Region,
    z: int,
    a: int,
    b: int,
)
    requires
        a <= b,
        er.lower_x <= er.upper_x,
    ensures
        slab_face_count(fs, sr, data, border, er, z, a) <= slab_face_count(
            fs,
            sr,
            data,
            border,
            er,
            z,
            b,
        ),
    decreases b - a,
{
    if a < b {
        lemma_slab_count_mono(fs, sr, data, border, er, z, a, b - 1);
        lemma_row_count_mono(fs, sr, data, border, er, b - 1, z, er.lower_x as int, er.upper_x as int + 2);
    }
}

/// Region counts grow with the slab bound.
proof fn lemma_region_count_mono<T: Voxel>(
    fs: spec_fn(T, T) -> Option<T>,
    sr: Region,
    data: Seq<T>,
    border: T,
    er: Region,
    a: int,
    b: int,
)
    requires
        a <= b,
        er.lower_x <= er.upper_x,
        er.lower_y <= er.upper_y,
    ensures
        region_face_count(fs, sr, data, border, er, a) <= region_face_count(
            fs,
            sr,
            data,
            border,
            er,
            b,
        ),
    decreases b - a,
{
    if a < b {
        lemma_region_count_mono(fs, sr, data, border, er, a, b - 1);
        lemma_slab_count_mono(fs, sr, data, border, er, b - 1, er.lower_y as int, er.upper_y as int + 2);
    }
}

/// The full sweep count dominates the count up to any cell of the sweep:
/// the partial counts are nonnegative and the cell's own faces are
/// included in the total.
proof fn lemma_sweep_count_bounds<T: Voxel>(
    fs: spec_fn(T, T) -> Option<T>,
    sr: Region,
    data: Seq<T>,
    border: T,
    er: Region,
    x: int,
    y: int,
    z: int,
)
    requires
        er.lower_x <= x <= er.upper_x + 1,
        er.lower_y <= y <= er.upper_y + 1,
        er.lower_z <= z <= er.upper_z + 1,
        er.lower_x <= er.upper_x,
        er.lower_y <= er.upper_y,
    ensures
        0 <= region_face_count(fs, sr, data, border, er, z),
        0 <= slab_face_count(fs, sr, data, border, er, z, y),
        0 <= row_face_count(fs, sr, data, border, er, y, z, x),
        sweep_face_count(fs, sr, data, border, er) >= region_face_count(
            fs,
            sr,
            data,
            border,
            er,
            z,
        ) + slab_face_count(fs, sr, data, border, er, z, y) + row_face_count(
            fs,
            sr,
            data,
            border,
            er,
            y,
            z,
            x,
        ) + cell_face_count(fs, sr, data, border, er, x, y, z),
{
    lemma_row_count_mono(fs, sr, data, border, er, y, z, er.lower_x as int, x);
    lemma_slab_count_mono(fs, sr, data, border, er, z, er.lower_y as int, y);
    lemma_region_count_mono(fs, sr, data, border, er, er.lower_z as int, z);
    lemma_row_count_mono(fs, sr, data, border, er, y, z, x + 1, er.upper_x as int + 2);
    lemma_slab_count_mono(fs, sr, data, border, er, z, y + 1, er.upper_y as int + 2);
    lemma_region_count_mono(fs, sr, data, border, er, z + 1, er.upper_z as int + 2);
}

/// Sweeps the target region of the sampler's store, asks the face
/// predicate about every inter-voxel interface in both orientations, and
/// writes the resulting faces into `mesh`: vertices deduplicated across
/// cells per material, faces optionally merged into larger rectangles per
/// plane, then triangulated according to the mesh's arity and compacted.
///
/// Returns `None` — leaving a partial mesh — only when more than
/// `MAX_VERTICES_PER_POSITION` materials claim one lattice point, or when
/// the mesh runs out of vertex indices.  A predicate that emits nothing
/// for any value the store can hand out yields `Some(true)` and an empty
/// mesh.
#[verifier::loop_isolation(false)]
#[verifier::rlimit(100)]
pub fn extract_cubic_mesh_custom<T, S, F>(
    sampler: &mut S,
    region: &Region,
    mesh: &mut Mesh<CubicVertex<T>>,
    is_quad_needed: F,
    merge_quads: bool,
) -> (r: Option<bool>) where
    T: Voxel,
    S: Sampler<T>,
    F: Fn(&T, &T) -> Option<T>,

    requires
        old(sampler).wf(),
        region.wf(),
        region.width_spec() <= 254,
        region.height_spec() <= 254,
        region.depth_spec() <= 254,
        region.upper_x + 2 <= i32::MAX,
        region.upper_y + 2 <= i32::MAX,
        region.upper_z + 2 <= i32::MAX,
        region.lower_x > i32::MIN,
        region.lower_y > i32::MIN,
        region.lower_z > i32::MIN,
        forall|a: &T, b: &T| #[trigger] call_requires(is_quad_needed, (a, b)),
    ensures
        final(sampler).wf(),
        final(sampler).region_spec() == old(sampler).region_spec(),
        final(sampler).data_spec() == old(sampler).data_spec(),
        final(sampler).border_spec() == old(sampler).border_spec(),
        final(mesh).face_arity == old(mesh).face_arity,
        r is Some ==> final(mesh).indices_valid(),
        r is Some ==> final(mesh).offset == (Vec3 {
            x: region.lower_x,
            y: region.lower_y,
            z: region.lower_z,
        }),
        r is Some && final(mesh).face_arity == FaceArity::Three ==> final(mesh).indices@.len() % 3
            == 0,
        r is Some && final(mesh).face_arity == FaceArity::Four ==> final(mesh).indices@.len() % 4
            == 0,
        r is Some ==> vertex_coords_in_range(
            final(mesh).vertices@,
            region.width_spec(),
            region.height_spec(),
            region.depth_spec(),
        ),
        r is Some ==> forall|j: int|
            0 <= j < final(mesh).vertices@.len() ==> position_used(final(mesh).indices@, j),
        r is Some && merge_quads == false ==> forall|fs: spec_fn(T, T) -> Option<T>| #[trigger]
            rule_describes(is_quad_needed, fs) ==> final(mesh).indices@.len() == arity_factor(
                old(mesh).face_arity,
            ) * sweep_face_count(
                fs,
                old(sampler).region_spec(),
                old(sampler).data_spec(),
                old(sampler).border_spec(),
                *region,
            ),
        r is Some ==> forall|fs: spec_fn(T, T) -> Option<T>| #[trigger]
            rule_describes(is_quad_needed, fs) ==> (final(mesh).indices@.len() == 0
                <==> sweep_face_count(
                fs,
                old(sampler).region_spec(),
                old(sampler).data_spec(),
                old(sampler).border_spec(),
                *region,
            ) == 0),
        r is None ==> forall|fs: spec_fn(T, T) -> Option<T>| #[trigger]
            rule_describes(is_quad_needed, fs) ==> sweep_face_count(
                fs,
                old(sampler).region_spec(),
                old(sampler).data_spec(),
                old(sampler).border_spec(),
                *region,
            ) > 0,
        predicate_quiet(is_quad_needed, old(sampler).data_spec(), old(sampler).border_spec())
            ==> r == Some(true) && final(mesh).vertices@.len() == 0
            && final(mesh).indices@.len() == 0,
{
    let ghost data0 = sampler.data_spec();
    let ghost border0 = sampler.border_spec();
    let ghost region0 = sampler.region_spec();
    let ghost arity0 = mesh.face_arity;

    mesh.clear();

    let width = (region.get_width() + 2) as usize;
    let height = (region.get_height() + 2) as usize;
    let depth = (region.get_depth() + 2) as usize;
    proof {
        assert(width * height <= 0x10000 && width * height * MAX_VERTICES_PER_POSITION
            <= 0x80000) by (nonlinear_arith)
            requires
                width <= 256,
                height <= 256,
                MAX_VERTICES_PER_POSITION == 8,
        ;
    }

    let mut prev_slice_vertices: Array3<IndexAndMaterial<T>> = Array3::new(
        width,
        height,
        MAX_VERTICES_PER_POSITION,
        IndexAndMaterial::empty(),
    );
    let mut current_slice_vertices: Array3<IndexAndMaterial<T>> = Array3::new(
        width,
        height,
        MAX_VERTICES_PER_POSITION,
        IndexAndMaterial::empty(),
    );

    let mut neg_x_quads: Vec<Vec<Quad>> = make_buckets(width);
    let mut pos_x_quads: Vec<Vec<Quad>> = make_buckets(width);
    let mut neg_y_quads: Vec<Vec<Quad>> = make_buckets(height);
    let mut pos_y_quads: Vec<Vec<Quad>> = make_buckets(height);
    let mut neg_z_quads: Vec<Vec<Quad>> = make_buckets(depth);
    let mut pos_z_quads: Vec<Vec<Quad>> = make_buckets(depth);
    proof {
        lemma_bucket_total_empty(neg_x_quads@);
        lemma_bucket_total_empty(pos_x_quads@);
        lemma_bucket_total_empty(neg_y_quads@);
        lemma_bucket_total_empty(pos_y_quads@);
        lemma_bucket_total_empty(neg_z_quads@);
        lemma_bucket_total_empty(pos_z_quads@);
    }

    let mut z = region.lower_z;
    while z <= region.upper_z + 1
        invariant
            sampler.wf(),
            sampler.data_spec() == data0,
            sampler.border_spec() == border0,
            sampler.region_spec() == region0,
            mesh.face_arity == arity0,
            mesh.indices@.len() == 0,
            mesh.vertices@.len() <= 0x7fffffff,
            prev_slice_vertices.wf(),
            prev_slice_vertices.width == width,
            prev_slice_vertices.height == height,
            prev_slice_vertices.depth == MAX_VERTICES_PER_POSITION,
            table_linked(prev_slice_vertices, mesh.vertices@),
            current_slice_vertices.wf(),
            current_slice_vertices.width == width,
            current_slice_vertices.height == height,
            current_slice_vertices.depth == MAX_VERTICES_PER_POSITION,
            table_linked(current_slice_vertices, mesh.vertices@),
            neg_x_quads@.len() == width,
            pos_x_quads@.len() == width,
            neg_y_quads@.len() == height,
            pos_y_quads@.len() == height,
            neg_z_quads@.len() == depth,
            pos_z_quads@.len() == depth,
            plane_buckets_ok(neg_x_quads@, mesh.vertices@.len() as int),
            plane_buckets_ok(pos_x_quads@, mesh.vertices@.len() as int),
            plane_buckets_ok(neg_y_quads@, mesh.vertices@.len() as int),
            plane_buckets_ok(pos_y_quads@, mesh.vertices@.len() as int),
            plane_buckets_ok(neg_z_quads@, mesh.vertices@.len() as int),
            plane_buckets_ok(pos_z_quads@, mesh.vertices@.len() as int),
            predicate_quiet(is_quad_needed, data0, border0) ==> mesh.vertices@.len() == 0
                && plane_buckets_empty(neg_x_quads@) && plane_buckets_empty(pos_x_quads@)
                && plane_buckets_empty(neg_y_quads@) && plane_buckets_empty(pos_y_quads@)
                && plane_buckets_empty(neg_z_quads@) && plane_buckets_empty(pos_z_quads@),
            vertex_coords_in_range(
                mesh.vertices@,
                region.width_spec(),
                region.height_spec(),
                region.depth_spec(),
            ),
            forall|fs: spec_fn(T, T) -> Option<T>| #[trigger]
                rule_describes(is_quad_needed, fs) ==> buckets_grand_total(
                    neg_x_quads@,
                    pos_x_quads@,
                    neg_y_quads@,
                    pos_y_quads@,
                    neg_z_quads@,
                    pos_z_quads@,
                ) == region_face_count(fs, region0, data0, border0, *region, z as int),
            region.lower_z <= z <= region.upper_z + 2,
        decreases region.upper_z + 2 - z,
    {
        let reg_z = (z - region.lower_z) as u32;

        let mut y = region.lower_y;
        while y <= region.upper_y + 1
            invariant
                sampler.wf(),
                sampler.data_spec() == data0,
                sampler.border_spec() == border0,
                sampler.region_spec() == region0,
                mesh.face_arity == arity0,
                mesh.indices@.len() == 0,
                mesh.vertices@.len() <= 0x7fffffff,
                prev_slice_vertices.wf(),
                prev_slice_vertices.width == width,
                prev_slice_vertices.height == height,
                prev_slice_vertices.depth == MAX_VERTICES_PER_POSITION,
                table_linked(prev_slice_vertices, mesh.vertices@),
                current_slice_vertices.wf(),
                current_slice_vertices.width == width,
                current_slice_vertices.height == height,
                current_slice_vertices.depth == MAX_VERTICES_PER_POSITION,
                table_linked(current_slice_vertices, mesh.vertices@),
                neg_x_quads@.len() == width,
                pos_x_quads@.len() == width,
                neg_y_quads@.len() == height,
                pos_y_quads@.len() == height,
                neg_z_quads@.len() == depth,
                pos_z_quads@.len() == depth,
                plane_buckets_ok(neg_x_quads@, mesh.vertices@.len() as int),
                plane_buckets_ok(pos_x_quads@, mesh.vertices@.len() as int),
                plane_buckets_ok(neg_y_quads@, mesh.vertices@.len() as int),
                plane_buckets_ok(pos_y_quads@, mesh.vertices@.len() as int),
                plane_buckets_ok(neg_z_quads@, mesh.vertices@.len() as int),
                plane_buckets_ok(pos_z_quads@, mesh.vertices@.len() as int),
                predicate_quiet(is_quad_needed, data0, border0) ==> mesh.vertices@.len() == 0
                    && plane_buckets_empty(neg_x_quads@) && plane_buckets_empty(pos_x_quads@)
                    && plane_buckets_empty(neg_y_quads@) && plane_buckets_empty(pos_y_quads@)
                    && plane_buckets_empty(neg_z_quads@) && plane_buckets_empty(pos_z_quads@),
                vertex_coords_in_range(
                    mesh.vertices@,
                    region.width_spec(),
                    region.height_spec(),
                    region.depth_spec(),
                ),
                forall|fs: spec_fn(T, T) -> Option<T>| #[trigger]
                    rule_describes(is_quad_needed, fs) ==> buckets_grand_total(
                        neg_x_quads@,
                        pos_x_quads@,
                        neg_y_quads@,
                        pos_y_quads@,
                        neg_z_quads@,
                        pos_z_quads@,
                    ) == region_face_count(fs, region0, data0, border0, *region, z as int)
                        + slab_face_count(fs, region0, data0, border0, *region, z as int, y as int),
                region.lower_z <= z <= region.upper_z + 1,
                reg_z == z - region.lower_z,
                region.lower_y <= y <= region.upper_y + 2,
            decreases region.upper_y + 2 - y,
        {
            let reg_y = (y - region.lower_y) as u32;
            sampler.set_position(region.lower_x, y, z);

            let mut x = region.lower_x;
            while x <= region.upper_x + 1
                invariant
                    sampler.wf(),
                    sampler.data_spec() == data0,
                    sampler.border_spec() == border0,
                    sampler.region_spec() == region0,
                    sampler.x_spec() == x,
                    sampler.y_spec() == y,
                    sampler.z_spec() == z,
                    mesh.face_arity == arity0,
                    mesh.indices@.len() == 0,
                    mesh.vertices@.len() <= 0x7fffffff,
                    prev_slice_vertices.wf(),
                    prev_slice_vertices.width == width,
                    prev_slice_vertices.height == height,
                    prev_slice_vertices.depth == MAX_VERTICES_PER_POSITION,
                    table_linked(prev_slice_vertices, mesh.vertices@),
                    current_slice_vertices.wf(),
                    current_slice_vertices.width == width,
                    current_slice_vertices.height == height,
                    current_slice_vertices.depth == MAX_VERTICES_PER_POSITION,
                    table_linked(current_slice_vertices, mesh.vertices@),
                    neg_x_quads@.len() == width,
                    pos_x_quads@.len() == width,
                    neg_y_quads@.len() == height,
                    pos_y_quads@.len() == height,
                    neg_z_quads@.len() == depth,
                    pos_z_quads@.len() == depth,
                    plane_buckets_ok(neg_x_quads@, mesh.vertices@.len() as int),
                    plane_buckets_ok(pos_x_quads@, mesh.vertices@.len() as int),
                    plane_buckets_ok(neg_y_quads@, mesh.vertices@.len() as int),
                    plane_buckets_ok(pos_y_quads@, mesh.vertices@.len() as int),
                    plane_buckets_ok(neg_z_quads@, mesh.vertices@.len() as int),
                    plane_buckets_ok(pos_z_quads@, mesh.vertices@.len() as int),
                    predicate_quiet(is_quad_needed, data0, border0) ==> mesh.vertices@.len() == 0
                        && plane_buckets_empty(neg_x_quads@) && plane_buckets_empty(pos_x_quads@)
                        && plane_buckets_empty(neg_y_quads@) && plane_buckets_empty(pos_y_quads@)
                        && plane_buckets_empty(neg_z_quads@) && plane_buckets_empty(pos_z_quads@),
                    vertex_coords_in_range(
                        mesh.vertices@,
                        region.width_spec(),
                        region.height_spec(),
                        region.depth_spec(),
                    ),
                    forall|fs: spec_fn(T, T) -> Option<T>| #[trigger]
                        rule_describes(is_quad_needed, fs) ==> buckets_grand_total(
                            neg_x_quads@,
                            pos_x_quads@,
                            neg_y_quads@,
                            pos_y_quads@,
                            neg_z_quads@,
                            pos_z_quads@,
                        ) == region_face_count(fs, region0, data0, border0, *region, z as int)
                            + slab_face_count(fs, region0, data0, border0, *region, z as int, y as int)
                            + row_face_count(fs, region0, data0, border0, *region, y as int, z as int, x as int),
                    region.lower_z <= z <= region.upper_z + 1,
                    reg_z == z - region.lower_z,
                    region.lower_y <= y <= region.upper_y + 1,
                    reg_y == y - region.lower_y,
                    region.lower_x <= x <= region.upper_x + 2,
                decreases region.upper_x + 2 - x,
            {
                let reg_x = (x - region.lower_x) as u32;

                let current_voxel = sampler.get_voxel();
                sampler.move_negative_x();
                let neg_x_voxel = sampler.get_voxel();
                sampler.move_positive_x();
                sampler.move_negative_y();
                let neg_y_voxel = sampler.get_voxel();
                sampler.move_positive_y();
                sampler.move_negative_z();
                let neg_z_voxel = sampler.get_voxel();
                sampler.move_positive_z();
                let in_region = region.contains_point(x, y, z);

                let ghost total_before_x = buckets_grand_total(
                    neg_x_quads@,
                    pos_x_quads@,
                    neg_y_quads@,
                    pos_y_quads@,
                    neg_z_quads@,
                    pos_z_quads@,
                );
                if in_region || region.contains_point(x - 1, y, z) {
                    let face = is_quad_needed(&current_voxel, &neg_x_voxel);
                    if let Some(material) = face {
                        proof {
                            if predicate_quiet(is_quad_needed, data0, border0) {
                                sampler.lemma_wf_properties();
                                lemma_lookup_obtainable(region0, data0, border0, sampler.x_spec(), sampler.y_spec(), sampler.z_spec());
                                lemma_lookup_obtainable(region0, data0, border0, sampler.x_spec() - 1, sampler.y_spec(), sampler.z_spec());
                                assert(false);
                            }
                            assert forall|fs: spec_fn(T, T) -> Option<T>| #[trigger] rule_describes(
                                is_quad_needed,
                                fs,
                            ) implies sweep_face_count(fs, region0, data0, border0, *region) > 0 by {
                                lemma_sweep_count_bounds(fs, region0, data0, border0, *region, x as int, y as int, z as int);
                                assert(fs(current_voxel, neg_x_voxel) == face);
                            }
                        }
                        let ghost bucket_pre = neg_x_quads@;
                        let corners = match add_x_face_vertices(
                            reg_x,
                            reg_y,
                            reg_z,
                            material,
                            &mut prev_slice_vertices,
                            &mut current_slice_vertices,
                            mesh,
                        ) {
                            Some(v) => v,
                            None => { return None; },
                        };
                        neg_x_quads[reg_x as usize].push(
                            Quad::new(corners.0, corners.1, corners.2, corners.3),
                        );
                        proof {
                            lemma_bucket_total_update(bucket_pre, reg_x as int, neg_x_quads@[reg_x as int]);
                        }
                    }
                    let face_back = is_quad_needed(&neg_x_voxel, &current_voxel);
                    if let Some(material) = face_back {
                        proof {
                            if predicate_quiet(is_quad_needed, data0, border0) {
                                sampler.lemma_wf_properties();
                                lemma_lookup_obtainable(region0, data0, border0, sampler.x_spec(), sampler.y_spec(), sampler.z_spec());
                                lemma_lookup_obtainable(region0, data0, border0, sampler.x_spec() - 1, sampler.y_spec(), sampler.z_spec());
                                assert(false);
                            }
                            assert forall|fs: spec_fn(T, T) -> Option<T>| #[trigger] rule_describes(
                                is_quad_needed,
                                fs,
                            ) implies sweep_face_count(fs, region0, data0, border0, *region) > 0 by {
                                lemma_sweep_count_bounds(fs, region0, data0, border0, *region, x as int, y as int, z as int);
                                assert(fs(neg_x_voxel, current_voxel) == face_back);
                            }
                        }
                        let ghost bucket_pre = pos_x_quads@;
                        let corners = match add_x_face_vertices(
                            reg_x,
                            reg_y,
                            reg_z,
                            material,
                            &mut prev_slice_vertices,
                            &mut current_slice_vertices,
                            mesh,
                        ) {
                            Some(v) => v,
                            None => { return None; },
                        };
                        pos_x_quads[reg_x as usize].push(
                            Quad::new(corners.0, corners.3, corners.2, corners.1),
                        );
                        proof {
                            lemma_bucket_total_update(bucket_pre, reg_x as int, pos_x_quads@[reg_x as int]);
                        }
                    }
                    proof {
                        assert forall|fs: spec_fn(T, T) -> Option<T>| #[trigger] rule_describes(
                            is_quad_needed,
                            fs,
                        ) implies buckets_grand_total(
                            neg_x_quads@,
                            pos_x_quads@,
                            neg_y_quads@,
                            pos_y_quads@,
                            neg_z_quads@,
                            pos_z_quads@,
                        ) == total_before_x + cell_x_faces(
                            fs,
                            region0,
                            data0,
                            border0,
                            *region,
                            x as int,
                            y as int,
                            z as int,
                        ) by {
                            assert(fs(current_voxel, neg_x_voxel) == face);
                            assert(fs(neg_x_voxel, current_voxel) == face_back);
                        }
                    }
                } else {
                    proof {
                        assert forall|fs: spec_fn(T, T) -> Option<T>| #[trigger] rule_describes(
                            is_quad_needed,
                            fs,
                        ) implies buckets_grand_total(
                            neg_x_quads@,
                            pos_x_quads@,
                            neg_y_quads@,
                            pos_y_quads@,
                            neg_z_quads@,
                            pos_z_quads@,
                        ) == total_before_x + cell_x_faces(
                            fs,
                            region0,
                            data0,
                            border0,
                            *region,
                            x as int,
                            y as int,
                            z as int,
                        ) by {}
                    }
                }
                let ghost total_before_y = buckets_grand_total(
                    neg_x_quads@,
                    pos_x_quads@,
                    neg_y_quads@,
                    pos_y_quads@,
                    neg_z_quads@,
                    pos_z_quads@,
                );
                if in_region || region.contains_point(x, y - 1, z) {
                    let face = is_quad_needed(&current_voxel, &neg_y_voxel);
                    if let Some(material) = face {
                        proof {
                            if predicate_quiet(is_quad_needed, data0, border0) {
                                sampler.lemma_wf_properties();
                                lemma_lookup_obtainable(region0, data0, border0, sampler.x_spec(), sampler.y_spec(), sampler.z_spec());
                                lemma_lookup_obtainable(region0, data0, border0, sampler.x_spec(), sampler.y_spec() - 1, sampler.z_spec());
                                assert(false);
                            }
                            assert forall|fs: spec_fn(T, T) -> Option<T>| #[trigger] rule_describes(
                                is_quad_needed,
                                fs,
                            ) implies sweep_face_count(fs, region0, data0, border0, *region) > 0 by {
                                lemma_sweep_count_bounds(fs, region0, data0, border0, *region, x as int, y as int, z as int);
                                assert(fs(current_voxel, neg_y_voxel) == face);
                            }
                        }
                        let ghost bucket_pre = neg_y_quads@;
                        let corners = match add_y_face_vertices(
                            reg_x,
                            reg_y,
                            reg_z,
                            material,
                            &mut prev_slice_vertices,
                            &mut current_slice_vertices,
                            mesh,
                        ) {
                            Some(v) => v,
                            None => { return None; },
                        };
                        neg_y_quads[reg_y as usize].push(
                            Quad::new(corners.0, corners.1, corners.2, corners.3),
                        );
                        proof {
                            lemma_bucket_total_update(bucket_pre, reg_y as int, neg_y_quads@[reg_y as int]);
                        }
                    }
                    let face_back = is_quad_needed(&neg_y_voxel, &current_voxel);
                    if let Some(material) = face_back {
                        proof {
                            if predicate_quiet(is_quad_needed, data0, border0) {
                                sampler.lemma_wf_properties();
                                lemma_lookup_obtainable(region0, data0, border0, sampler.x_spec(), sampler.y_spec(), sampler.z_spec());
                                lemma_lookup_obtainable(region0, data0, border0, sampler.x_spec(), sampler.y_spec() - 1, sampler.z_spec());
                                assert(false);
                            }
                            assert forall|fs: spec_fn(T, T) -> Option<T>| #[trigger] rule_describes(
                                is_quad_needed,
                                fs,
                            ) implies sweep_face_count(fs, region0, data0, border0, *region) > 0 by {
                                lemma_sweep_count_bounds(fs, region0, data0, border0, *region, x as int, y as int, z as int);
                                assert(fs(neg_y_voxel, current_voxel) == face_back);
                            }
                        }
                        let ghost bucket_pre = pos_y_quads@;
                        let corners = match add_y_face_vertices(
                            reg_x,
                            reg_y,
                            reg_z,
                            material,
                            &mut prev_slice_vertices,
                            &mut current_slice_vertices,
                            mesh,
                        ) {
                            Some(v) => v,
                            None => { return None; },
                        };
                        pos_y_quads[reg_y as usize].push(
                            Quad::new(corners.0, corners.3, corners.2, corners.1),
                        );
                        proof {
                            lemma_bucket_total_update(bucket_pre, reg_y as int, pos_y_quads@[reg_y as int]);
                        }
                    }
                    proof {
                        assert forall|fs: spec_fn(T, T) -> Option<T>| #[trigger] rule_describes(
                            is_quad_needed,
                            fs,
                        ) implies buckets_grand_total(
                            neg_x_quads@,
                            pos_x_quads@,
                            neg_y_quads@,
                            pos_y_quads@,
                            neg_z_quads@,
                            pos_z_quads@,
                        ) == total_before_y + cell_y_faces(
                            fs,
                            region0,
                            data0,
                            border0,
                            *region,
                            x as int,
                            y as int,
                            z as int,
                        ) by {
                            assert(fs(current_voxel, neg_y_voxel) == face);
                            assert(fs(neg_y_voxel, current_voxel) == face_back);
                        }
                    }
                } else {
                    proof {
                        assert forall|fs: spec_fn(T, T) -> Option<T>| #[trigger] rule_describes(
                            is_quad_needed,
                            fs,
                        ) implies buckets_grand_total(
                            neg_x_quads@,
                            pos_x_quads@,
                            neg_y_quads@,
                            pos_y_quads@,
                            neg_z_quads@,
                            pos_z_quads@,
                        ) == total_before_y + cell_y_faces(
                            fs,
                            region0,
                            data0,
                            border0,
                            *region,
                            x as int,
                            y as int,
                            z as int,
                        ) by {}
                    }
                }
                let ghost total_before_z = buckets_grand_total(
                    neg_x_quads@,
                    pos_x_quads@,
                    neg_y_quads@,
                    pos_y_quads@,
                    neg_z_quads@,
                    pos_z_quads@,
                );
                if in_region || region.contains_point(x, y, z - 1) {
                    let face = is_quad_needed(&current_voxel, &neg_z_voxel);
                    if let Some(material) = face {
                        proof {
                            if predicate_quiet(is_quad_needed, data0, border0) {
                                sampler.lemma_wf_properties();
                                lemma_lookup_obtainable(region0, data0, border0, sampler.x_spec(), sampler.y_spec(), sampler.z_spec());
                                lemma_lookup_obtainable(region0, data0, border0, sampler.x_spec(), sampler.y_spec(), sampler.z_spec() - 1);
                                assert(false);
                            }
                            assert forall|fs: spec_fn(T, T) -> Option<T>| #[trigger] rule_describes(
                                is_quad_needed,
                                fs,
                            ) implies sweep_face_count(fs, region0, data0, border0, *region) > 0 by {
                                lemma_sweep_count_bounds(fs, region0, data0, border0, *region, x as int, y as int, z as int);
                                assert(fs(current_voxel, neg_z_voxel) == face);
                            }
                        }
                        let ghost bucket_pre = neg_z_quads@;
                        let corners = match add_z_face_vertices(
                            reg_x,
                            reg_y,
                            reg_z,
                            material,
                            &mut prev_slice_vertices,
                            mesh,
                        ) {
                            Some(v) => v,
                            None => { return None; },
                        };
                        neg_z_quads[reg_z as usize].push(
                            Quad::new(corners.0, corners.1, corners.2, corners.3),
                        );
                        proof {
                            lemma_bucket_total_update(bucket_pre, reg_z as int, neg_z_quads@[reg_z as int]);
                        }
                    }
                    let face_back = is_quad_needed(&neg_z_voxel, &current_voxel);
                    if let Some(material) = face_back {
                        proof {
                            if predicate_quiet(is_quad_needed, data0, border0) {
                                sampler.lemma_wf_properties();
                                lemma_lookup_obtainable(region0, data0, border0, sampler.x_spec(), sampler.y_spec(), sampler.z_spec());
                                lemma_lookup_obtainable(region0, data0, border0, sampler.x_spec(), sampler.y_spec(), sampler.z_spec() - 1);
                                assert(false);
                            }
                            assert forall|fs: spec_fn(T, T) -> Option<T>| #[trigger] rule_describes(
                                is_quad_needed,
                                fs,
                            ) implies sweep_face_count(fs, region0, data0, border0, *region) > 0 by {
                                lemma_sweep_count_bounds(fs, region0, data0, border0, *region, x as int, y as int, z as int);
                                assert(fs(neg_z_voxel, current_voxel) == face_back);
                            }
                        }
                        let ghost bucket_pre = pos_z_quads@;
                        let corners = match add_z_face_vertices(
                            reg_x,
                            reg_y,
                            reg_z,
                            material,
                            &mut prev_slice_vertices,
                            mesh,
                        ) {
                            Some(v) => v,
                            None => { return None; },
                        };
                        pos_z_quads[reg_z as usize].push(
                            Quad::new(corners.0, corners.3, corners.2, corners.1),
                        );
                        proof {
                            lemma_bucket_total_update(bucket_pre, reg_z as int, pos_z_quads@[reg_z as int]);
                        }
                    }
                    proof {
                        assert forall|fs: spec_fn(T, T) -> Option<T>| #[trigger] rule_describes(
                            is_quad_needed,
                            fs,
                        ) implies buckets_grand_total(
                            neg_x_quads@,
                            pos_x_quads@,
                            neg_y_quads@,
                            pos_y_quads@,
                            neg_z_quads@,
                            pos_z_quads@,
                        ) == total_before_z + cell_z_faces(
                            fs,
                            region0,
                            data0,
                            border0,
                            *region,
                            x as int,
                            y as int,
                            z as int,
                        ) by {
                            assert(fs(current_voxel, neg_z_voxel) == face);
                            assert(fs(neg_z_voxel, current_voxel) == face_back);
                        }
                    }
                } else {
                    proof {
                        assert forall|fs: spec_fn(T, T) -> Option<T>| #[trigger] rule_describes(
                            is_quad_needed,
                            fs,
                        ) implies buckets_grand_total(
                            neg_x_quads@,
                            pos_x_quads@,
                            neg_y_quads@,
                            pos_y_quads@,
                            neg_z_quads@,
                            pos_z_quads@,
                        ) == total_before_z + cell_z_faces(
                            fs,
                            region0,
                            data0,
                            border0,
                            *region,
                            x as int,
                            y as int,
                            z as int,
                        ) by {}
                    }
                }
                proof {
                    assert forall|fs: spec_fn(T, T) -> Option<T>| #[trigger] rule_describes(
                        is_quad_needed,
                        fs,
                    ) implies buckets_grand_total(
                        neg_x_quads@,
                        pos_x_quads@,
                        neg_y_quads@,
                        pos_y_quads@,
                        neg_z_quads@,
                        pos_z_quads@,
                    ) == total_before_x + cell_face_count(
                        fs,
                        region0,
                        data0,
                        border0,
                        *region,
                        x as int,
                        y as int,
                        z as int,
                    ) && row_face_count(fs, region0, data0, border0, *region, y as int, z as int, x + 1) == row_face_count(fs, region0, data0, border0, *region, y as int, z as int, x as int) + cell_face_count(
                        fs,
                        region0,
                        data0,
                        border0,
                        *region,
                        x as int,
                        y as int,
                        z as int,
                    ) by {}
                }
                sampler.move_positive_x();
                x = x + 1;
            }
            y = y + 1;
        }

        let swapped = prev_slice_vertices;
        prev_slice_vertices = current_slice_vertices;
        current_slice_vertices = swapped;
        let mut ci: usize = 0;
        while ci < current_slice_vertices.data.len()
            invariant
                current_slice_vertices.wf(),
                current_slice_vertices.width == width,
                current_slice_vertices.height == height,
                current_slice_vertices.depth == MAX_VERTICES_PER_POSITION,
                table_linked(current_slice_vertices, mesh.vertices@),
                ci <= current_slice_vertices.data@.len(),
            decreases current_slice_vertices.data@.len() - ci,
        {
            let kept = current_slice_vertices.data[ci].material;
            current_slice_vertices.data[ci] = IndexAndMaterial { index: -1, material: kept };
            ci = ci + 1;
        }

        z = z + 1;
    }

    let ghost sweep_total = buckets_grand_total(
        neg_x_quads@,
        pos_x_quads@,
        neg_y_quads@,
        pos_y_quads@,
        neg_z_quads@,
        pos_z_quads@,
    );
    proof {
        lemma_bucket_total_props(neg_x_quads@);
        lemma_bucket_total_props(pos_x_quads@);
        lemma_bucket_total_props(neg_y_quads@);
        lemma_bucket_total_props(pos_y_quads@);
        lemma_bucket_total_props(neg_z_quads@);
        lemma_bucket_total_props(pos_z_quads@);
        assert forall|fs: spec_fn(T, T) -> Option<T>| #[trigger] rule_describes(
            is_quad_needed,
            fs,
        ) implies sweep_total == sweep_face_count(fs, region0, data0, border0, *region) by {}
        if predicate_quiet(is_quad_needed, data0, border0) {
            lemma_bucket_total_empty(neg_x_quads@);
            lemma_bucket_total_empty(pos_x_quads@);
            lemma_bucket_total_empty(neg_y_quads@);
            lemma_bucket_total_empty(pos_y_quads@);
            lemma_bucket_total_empty(neg_z_quads@);
            lemma_bucket_total_empty(pos_z_quads@);
        }
    }
    emit_all_planes(
        neg_x_quads,
        pos_x_quads,
        neg_y_quads,
        pos_y_quads,
        neg_z_quads,
        pos_z_quads,
        merge_quads,
        mesh,
    );
    proof {
        assert(mesh.indices@.len() == 0 <==> sweep_total == 0);
    }

    mesh.set_offset(region.get_lower_corner());
    let ghost pre_verts = mesh.vertices@;
    let ghost pre_idx = mesh.indices@;
    mesh.remove_unused_vertices();
    proof {
        lemma_compacted_slots_all_used(pre_verts, pre_idx, mesh.indices@);
        assert forall|p: int| 0 <= p < mesh.vertices@.len() implies ((#[trigger]
        mesh.vertices@[p]).position & 0xff) <= region.width_spec() && ((mesh.vertices@[
            p
        ].position >> 8) & 0xff) <= region.height_spec() && ((mesh.vertices@[p].position
            >> 16) & 0xff) <= region.depth_spec() by {
            crate::mesh::lemma_compacted_no_orphans(pre_verts, pre_idx, p);
            let j = choose|j: int|
                #![trigger compacted_position(pre_idx, j)]
                0 <= j < pre_verts.len() && position_used(pre_idx, j) && compacted_position(
                    pre_idx,
                    j,
                ) == p && compacted_vertices(pre_verts, pre_idx)[p] == pre_verts[j];
            assert(mesh.vertices@[p] == pre_verts[j]);
        }
    }

    Some(true)
}

/// The standard face rule: a face is emitted where a solid back voxel
/// meets empty space, carrying the back voxel as the face's material.
pub open spec fn default_face_rule<T: Voxel>(back: T, front: T) -> Option<T> {
    if !back.is_empty_spec() && front.is_empty_spec() {
        Some(back)
    } else {
        None
    }
}

/// Extracts the surface with the standard face rule — a face is emitted
/// where a solid voxel meets empty space, carrying the solid voxel as its
/// material — into a fresh mesh of the requested arity, with quad merging
/// on unless switched off.  A store holding only empty voxels yields an
/// empty mesh.
pub fn extract_cubic_mesh<T, S>(
    sampler: &mut S,
    region: &Region,
    face_arity: Option<FaceArity>,
    merge_quads: Option<bool>,
) -> (r: Option<Mesh<CubicVertex<T>>>) where T: Voxel, S: Sampler<T>
    requires
        old(sampler).wf(),
        region.wf(),
        region.width_spec() <= 254,
        region.height_spec() <= 254,
        region.depth_spec() <= 254,
        region.upper_x + 2 <= i32::MAX,
        region.upper_y + 2 <= i32::MAX,
        region.upper_z + 2 <= i32::MAX,
        region.lower_x > i32::MIN,
        region.lower_y > i32::MIN,
        region.lower_z > i32::MIN,
    ensures
        final(sampler).wf(),
        final(sampler).region_spec() == old(sampler).region_spec(),
        final(sampler).data_spec() == old(sampler).data_spec(),
        final(sampler).border_spec() == old(sampler).border_spec(),
        r is Some ==> r.unwrap().face_arity == (if face_arity is Some {
            face_arity.unwrap()
        } else {
            FaceArity::Three
        }),
        r is Some ==> r.unwrap().indices_valid(),
        r is Some ==> r.unwrap().offset == (Vec3 {
            x: region.lower_x,
            y: region.lower_y,
            z: region.lower_z,
        }),
        r is Some && r.unwrap().face_arity == FaceArity::Three ==> r.unwrap().indices@.len() % 3
            == 0,
        r is Some && r.unwrap().face_arity == FaceArity::Four ==> r.unwrap().indices@.len() % 4
            == 0,
        r is Some ==> vertex_coords_in_range(
            r.unwrap().vertices@,
            region.width_spec(),
            region.height_spec(),
            region.depth_spec(),
        ),
        r is Some ==> forall|j: int|
            0 <= j < r.unwrap().vertices@.len() ==> position_used(r.unwrap().indices@, j),
        r is Some && merge_quads == Some(false) ==> r.unwrap().indices@.len() == arity_factor(
            if face_arity is Some {
                face_arity.unwrap()
            } else {
                FaceArity::Three
            },
        ) * sweep_face_count(
            |a: T, b: T| default_face_rule(a, b),
            old(sampler).region_spec(),
            old(sampler).data_spec(),
            old(sampler).border_spec(),
            *region,
        ),
        r is Some ==> (r.unwrap().indices@.len() == 0 <==> sweep_face_count(
            |a: T, b: T| default_face_rule(a, b),
            old(sampler).region_spec(),
            old(sampler).data_spec(),
            old(sampler).border_spec(),
            *region,
        ) == 0),
        r is None ==> sweep_face_count(
            |a: T, b: T| default_face_rule(a, b),
            old(sampler).region_spec(),
            old(sampler).data_spec(),
            old(sampler).border_spec(),
            *region,
        ) > 0,
        store_all_empty(old(sampler).data_spec(), old(sampler).border_spec()) ==> r is Some
            && r.unwrap().vertices@.len() == 0 && r.unwrap().indices@.len() == 0,
{
    let arity = match face_arity {
        Some(fa) => fa,
        None => FaceArity::Three,
    };
    let merge = match merge_quads {
        Some(m) => m,
        None => true,
    };
    let mut mesh: Mesh<CubicVertex<T>> = Mesh::new(arity);

    let pred = |back: &T, front: &T| -> (m: Option<T>)
        ensures
            m == (if !back.is_empty_spec() && front.is_empty_spec() {
                Some(*back)
            } else {
                None::<T>
            }),
        {
            if !back.is_empty() && front.is_empty() {
                Some(*back)
            } else {
                None
            }
        };

    let ghost data0 = sampler.data_spec();
    let ghost border0 = sampler.border_spec();
    proof {
        assert forall|a: &T, b: &T| #[trigger] call_requires(pred, (a, b)) by {}
        assert forall|a: &T, b: &T, m: Option<T>| #[trigger] call_ensures(
            pred,
            (a, b),
            m,
        ) implies m == (|a2: T, b2: T| default_face_rule(a2, b2))(*a, *b) by {}
        assert(rule_describes(pred, |a: T, b: T| default_face_rule(a, b)));
        if store_all_empty(data0, border0) {
            assert forall|a: &T, b: &T, m: Option<T>|
                obtainable(data0, border0, *a) && obtainable(data0, border0, *b)
                    && #[trigger] call_ensures(pred, (a, b), m) implies m is None by {
                if *a != border0 {
                    let i = choose|i: int| 0 <= i < data0.len() && data0[i] == *a;
                    assert(data0[i].is_empty_spec());
                }
                assert((*a).is_empty_spec());
            }
            assert(predicate_quiet(pred, data0, border0));
        }
    }

    match extract_cubic_mesh_custom(sampler, region, &mut mesh, pred, merge) {
        Some(_) => Some(mesh),
        None => None,
    }
}

} // verus!
