use vstd::prelude::*;

use crate::vec3::Vec3;

verus! {

/// How many vertices one face of a mesh has: triangles or quads.
#[derive(Clone, Copy, Debug, PartialEq, Eq, Structural)]
pub enum FaceArity {
    Three,
    Four,
}

/// Whether any entry of the index stream refers to vertex position `j`.
pub open spec fn position_used(indices: Seq<i32>, j: int) -> bool {
    exists|k: int| 0 <= k < indices.len() && indices[k] == j
}

/// Some used vertex position lands on slot `p` of the compacted sequence
/// and carries the record stored there.
pub open spec fn slot_has_used_source<T>(vertices: Seq<T>, indices: Seq<i32>, p: int) -> bool {
    exists|j: int|
        #![trigger compacted_position(indices, j)]
        0 <= j < vertices.len() && position_used(indices, j) && compacted_position(indices, j)
            == p && compacted_vertices(vertices, indices)[p] == vertices[j]
}

/// The vertices that survive compaction: exactly those the index stream
/// refers to, kept in their original order.
pub open spec fn compacted_vertices<T>(vertices: Seq<T>, indices: Seq<i32>) -> Seq<T>
    decreases vertices.len(),
{
    if vertices.len() == 0 {
        Seq::empty()
    } else {
        let prefix = compacted_vertices(vertices.drop_last(), indices);
        if position_used(indices, vertices.len() - 1) {
            prefix.push(vertices.last())
        } else {
            prefix
        }
    }
}

/// Where vertex position `j` lands after compaction: the number of used
/// positions before it.
pub open spec fn compacted_position(indices: Seq<i32>, j: int) -> int
    decreases j,
{
    if j <= 0 {
        0
    } else {
        compacted_position(indices, j - 1) + if position_used(indices, j - 1) {
            1int
        } else {
            0int
        }
    }
}

/// An append-only polygon mesh: vertex records, a face-index stream whose
/// group size is the face arity, and an integer offset locating the mesh in
/// the volume's coordinates.
pub struct Mesh<T> {
    pub indices: Vec<i32>,
    pub vertices: Vec<T>,
    pub offset: Vec3<i32>,
    pub face_arity: FaceArity,
}

impl<T> Mesh<T> {
    /// Every index refers to an existing vertex.
    pub open spec fn indices_valid(&self) -> bool {
        forall|k: int|
            0 <= k < self.indices@.len() ==> 0 <= #[trigger] self.indices@[k]
                < self.vertices@.len()
    }

    /// A new, empty mesh.  The `face_arity` argument determines whether this
    /// is a triangle or a quad mesh.
    pub fn new(face_arity: FaceArity) -> (r: Self)
        ensures
            r.indices@.len() == 0,
            r.vertices@.len() == 0,
            r.face_arity == face_arity,
            r.offset == (Vec3 { x: 0i32, y: 0i32, z: 0i32 }),
    {
        Mesh {
            indices: Vec::new(),
            vertices: Vec::new(),
            offset: Vec3 { x: 0, y: 0, z: 0 },
            face_arity,
        }
    }

    pub fn is_empty(&self) -> (r: bool)
        ensures
            r == (self.indices@.len() == 0 && self.vertices@.len() == 0),
    {
        self.indices.is_empty() && self.vertices.is_empty()
    }

    pub fn clear(&mut self)
        ensures
            final(self).indices@.len() == 0,
            final(self).vertices@.len() == 0,
            final(self).offset == old(self).offset,
            final(self).face_arity == old(self).face_arity,
    {
        self.indices.clear();
        self.vertices.clear();
    }

    /// Appends a vertex record and returns its position.
    pub fn add_vertex(&mut self, vertex: T) -> (r: usize)
        ensures
            final(self).vertices@ == old(self).vertices@.push(vertex),
            r == old(self).vertices@.len(),
            final(self).indices@ == old(self).indices@,
            final(self).offset == old(self).offset,
            final(self).face_arity == old(self).face_arity,
    {
        self.vertices.push(vertex);

        self.vertices.len() - 1
    }

    pub fn get_vertex_count(&self) -> (r: usize)
        ensures
            r == self.vertices@.len(),
    {
        self.vertices.len()
    }

    pub fn get_vertex(&self, index: usize) -> (r: &T)
        requires
            index < self.vertices@.len(),
        ensures
            *r == self.vertices@[index as int],
    {
        &self.vertices[index]
    }

    /// Appends one triangle.  Only a mesh of arity `Three` takes triangles.
    pub fn add_triangle(&mut self, vertex_0: i32, vertex_1: i32, vertex_2: i32)
        requires
            old(self).face_arity == FaceArity::Three,
        ensures
            final(self).indices@ == old(self).indices@.push(vertex_0).push(vertex_1).push(
                vertex_2,
            ),
            final(self).vertices@ == old(self).vertices@,
            final(self).offset == old(self).offset,
            final(self).face_arity == old(self).face_arity,
    {
        self.indices.push(vertex_0);
        self.indices.push(vertex_1);
        self.indices.push(vertex_2);
    }

    /// Appends one quad.  Only a mesh of arity `Four` takes quads.
    pub fn add_quad(&mut self, vertex_0: i32, vertex_1: i32, vertex_2: i32, vertex_3: i32)
        requires
            old(self).face_arity == FaceArity::Four,
        ensures
            final(self).indices@ == old(self).indices@.push(vertex_0).push(vertex_1).push(
                vertex_2,
            ).push(vertex_3),
            final(self).vertices@ == old(self).vertices@,
            final(self).offset == old(self).offset,
            final(self).face_arity == old(self).face_arity,
    {
        self.indices.push(vertex_0);
        self.indices.push(vertex_1);
        self.indices.push(vertex_2);
        self.indices.push(vertex_3);
    }

    pub fn set_offset(&mut self, offset: Vec3<i32>)
        ensures
            final(self).offset == offset,
            final(self).indices@ == old(self).indices@,
            final(self).vertices@ == old(self).vertices@,
            final(self).face_arity == old(self).face_arity,
    {
        self.offset = offset;
    }

    pub fn indices(&self) -> (r: &[i32])
        ensures
            r@ == self.indices@,
    {
        self.indices.as_slice()
    }

    pub fn vertices(&self) -> (r: &[T])
        ensures
            r@ == self.vertices@,
    {
        self.vertices.as_slice()
    }

    pub fn offset(&self) -> (r: Vec3<i32>)
        ensures
            r == self.offset,
    {
        self.offset
    }

    pub fn face_arity(&self) -> (r: FaceArity)
        ensures
            r == self.face_arity,
    {
        self.face_arity
    }
}

/// Compacting one more position appends the vertex there exactly when it is
/// used.
proof fn lemma_compacted_take_step<T>(s: Seq<T>, indices: Seq<i32>, i: int)
    requires
        0 <= i < s.len(),
    ensures
        compacted_vertices(s.take(i + 1), indices) == if position_used(indices, i) {
            compacted_vertices(s.take(i), indices).push(s[i])
        } else {
            compacted_vertices(s.take(i), indices)
        },
{
    let t = s.take(i + 1);
    assert(t.drop_last() =~= s.take(i));
    assert(t.last() == s[i]);
}

/// A vertex position never moves forward under compaction.
proof fn lemma_cpos_bounds(indices: Seq<i32>, j: int)
    requires
        0 <= j,
    ensures
        0 <= compacted_position(indices, j) <= j,
    decreases j,
{
    if j > 0 {
        lemma_cpos_bounds(indices, j - 1);
    }
}

/// Compacted positions grow with the original positions; strictly so past a
/// used position.
proof fn lemma_cpos_monotone(indices: Seq<i32>, j1: int, j2: int)
    requires
        0 <= j1 <= j2,
    ensures
        compacted_position(indices, j1) <= compacted_position(indices, j2),
        j1 < j2 && position_used(indices, j1) ==> compacted_position(indices, j1)
            < compacted_position(indices, j2),
    decreases j2 - j1,
{
    if j1 < j2 {
        lemma_cpos_monotone(indices, j1 + 1, j2);
    }
}

/// The compacted sequence is as long as the count of used positions.
proof fn lemma_compacted_len<T>(s: Seq<T>, indices: Seq<i32>)
    ensures
        compacted_vertices(s, indices).len() == compacted_position(indices, s.len() as int),
    decreases s.len(),
{
    if s.len() > 0 {
        lemma_compacted_len(s.drop_last(), indices);
    }
}

/// A used vertex survives compaction at its compacted position.
pub proof fn lemma_compacted_maps_used<T>(s: Seq<T>, indices: Seq<i32>, j: int)
    requires
        0 <= j < s.len(),
        position_used(indices, j),
    ensures
        0 <= compacted_position(indices, j) < compacted_vertices(s, indices).len(),
        compacted_vertices(s, indices)[compacted_position(indices, j)] == s[j],
    decreases s.len(),
{
    lemma_compacted_len(s.drop_last(), indices);
    if j == s.len() - 1 {
        lemma_cpos_bounds(indices, j);
    } else {
        lemma_compacted_maps_used(s.drop_last(), indices, j);
        assert(s.drop_last()[j] == s[j]);
    }
}

/// Every surviving slot holds a used vertex record.
pub proof fn lemma_compacted_no_orphans<T>(s: Seq<T>, indices: Seq<i32>, p: int)
    requires
        0 <= p < compacted_vertices(s, indices).len(),
    ensures
        slot_has_used_source(s, indices, p),
    decreases s.len(),
{
    let n = s.len() as int;
    let prefix = compacted_vertices(s.drop_last(), indices);
    lemma_compacted_len(s.drop_last(), indices);
    if position_used(indices, n - 1) && p == prefix.len() {
        assert(0 <= n - 1 < s.len() && position_used(indices, n - 1) && compacted_position(
            indices,
            n - 1,
        ) == p && compacted_vertices(s, indices)[p] == s[n - 1]);
    } else {
        lemma_compacted_no_orphans(s.drop_last(), indices, p);
        let j = choose|j: int|
            #![trigger compacted_position(indices, j)]
            0 <= j < s.drop_last().len() && position_used(indices, j) && compacted_position(
                indices,
                j,
            ) == p && compacted_vertices(s.drop_last(), indices)[p] == s.drop_last()[j];
        assert(slot_has_used_source(s.drop_last(), indices, p));
        assert(s.drop_last()[j] == s[j]);
        assert(0 <= j < s.len() && position_used(indices, j) && compacted_position(indices, j)
            == p && compacted_vertices(s, indices)[p] == s[j]);
    }
}

/// Compaction is a permutation of the used vertex records: every index
/// still refers to the record it referred to before, every surviving slot
/// is referred to by some index, and survivors keep their original order.
pub proof fn lemma_compaction_is_permutation<T>(vertices: Seq<T>, indices: Seq<i32>)
    requires
        forall|k: int| 0 <= k < indices.len() ==> 0 <= #[trigger] indices[k] < vertices.len(),
    ensures
        forall|k: int|
            0 <= k < indices.len() ==> 0 <= compacted_position(indices, #[trigger] indices[k] as int)
                < compacted_vertices(vertices, indices).len() && compacted_vertices(
                vertices,
                indices,
            )[compacted_position(indices, indices[k] as int)] == vertices[indices[k] as int],
        forall|p: int|
            0 <= p < compacted_vertices(vertices, indices).len() ==> #[trigger]
                slot_has_used_source(vertices, indices, p),
        forall|j1: int, j2: int|
            0 <= j1 < j2 < vertices.len() && #[trigger] position_used(indices, j1) && #[trigger]
                position_used(indices, j2) ==> compacted_position(indices, j1)
                < compacted_position(indices, j2),
{
    assert forall|k: int| 0 <= k < indices.len() implies 0 <= compacted_position(
        indices,
        #[trigger] indices[k] as int,
    ) < compacted_vertices(vertices, indices).len() && compacted_vertices(vertices, indices)[
        compacted_position(indices, indices[k] as int)] == vertices[indices[k] as int] by {
        assert(position_used(indices, indices[k] as int));
        lemma_compacted_maps_used(vertices, indices, indices[k] as int);
    }
    assert forall|p: int|
        0 <= p < compacted_vertices(vertices, indices).len() implies #[trigger]
        slot_has_used_source(vertices, indices, p) by {
        lemma_compacted_no_orphans(vertices, indices, p);
    }
    assert forall|j1: int, j2: int|
        0 <= j1 < j2 < vertices.len() && #[trigger] position_used(indices, j1) && #[trigger]
            position_used(indices, j2) implies compacted_position(indices, j1)
        < compacted_position(indices, j2) by {
        lemma_cpos_monotone(indices, j1, j2);
    }
}

/// After compaction, the rewritten index stream still refers to every
/// surviving vertex slot: compaction leaves no orphans behind.
pub proof fn lemma_compacted_slots_all_used<T>(
    vertices: Seq<T>,
    indices: Seq<i32>,
    new_indices: Seq<i32>,
)
    requires
        forall|k: int| 0 <= k < indices.len() ==> 0 <= #[trigger] indices[k] < vertices.len(),
        new_indices.len() == indices.len(),
        forall|k: int|
            0 <= k < indices.len() ==> new_indices[k] == compacted_position(
                indices,
                #[trigger] indices[k] as int,
            ),
    ensures
        forall|p: int|
            0 <= p < compacted_vertices(vertices, indices).len() ==> position_used(
                new_indices,
                p,
            ),
{
    assert forall|p: int|
        0 <= p < compacted_vertices(vertices, indices).len() implies position_used(
        new_indices,
        p,
    ) by {
        lemma_compacted_no_orphans(vertices, indices, p);
        let j = choose|j: int|
            #![trigger compacted_position(indices, j)]
            0 <= j < vertices.len() && position_used(indices, j) && compacted_position(indices, j)
                == p && compacted_vertices(vertices, indices)[p] == vertices[j];
        let k = choose|k: int| 0 <= k < indices.len() && indices[k] == j;
        assert(new_indices[k] == p);
    }
}

impl<T: Copy> Mesh<T> {
    /// Drops every vertex record that no index refers to.  Survivors keep
    /// their original relative order, and the index stream is rewritten so
    /// that every face refers to the same records as before.
    pub fn remove_unused_vertices(&mut self)
        requires
            old(self).indices_valid(),
            old(self).vertices@.len() <= i32::MAX,
        ensures
            final(self).vertices@ == compacted_vertices(old(self).vertices@, old(self).indices@),
            final(self).indices@.len() == old(self).indices@.len(),
            forall|k: int|
                0 <= k < old(self).indices@.len() ==> final(self).indices@[k]
                    == compacted_position(old(self).indices@, #[trigger] old(
                    self,
                ).indices@[k] as int),
            final(self).indices_valid(),
            final(self).offset == old(self).offset,
            final(self).face_arity == old(self).face_arity,
    {
        let ghost old_verts = self.vertices@;
        let ghost idx = self.indices@;
        let vert_count = self.vertices.len();

        let mut is_vertex_used: Vec<bool> = Vec::new();
        let mut j: usize = 0;
        while j < vert_count
            invariant
                j <= vert_count,
                is_vertex_used@.len() == j,
                forall|t: int| 0 <= t < j ==> is_vertex_used@[t] == false,
            decreases vert_count - j,
        {
            is_vertex_used.push(false);
            j = j + 1;
        }

        let mut k: usize = 0;
        while k < self.indices.len()
            invariant
                self.indices@ == idx,
                self.vertices@ == old_verts,
                self.offset == old(self).offset,
                self.face_arity == old(self).face_arity,
                vert_count == old_verts.len(),
                forall|t: int| 0 <= t < idx.len() ==> 0 <= #[trigger] idx[t] < vert_count,
                k <= idx.len(),
                is_vertex_used@.len() == vert_count,
                forall|t: int|
                    0 <= t < vert_count ==> is_vertex_used@[t] == position_used(
                        idx.take(k as int),
                        t,
                    ),
            decreases idx.len() - k,
        {
            let i = self.indices[k];
            let ghost kk = k as int;
            is_vertex_used[i as usize] = true;
            proof {
                assert forall|t: int| 0 <= t < vert_count implies position_used(
                    idx.take(kk + 1),
                    t,
                ) == (position_used(idx.take(kk), t) || t == idx[kk]) by {
                    if position_used(idx.take(kk + 1), t) {
                        let w = choose|w: int| 0 <= w < idx.take(kk + 1).len() && #[trigger] idx.take(kk + 1)[w] == t;
                        if w < kk {
                            assert(idx.take(kk)[w] == t);
                        }
                    }
                    if position_used(idx.take(kk), t) {
                        let w = choose|w: int| 0 <= w < idx.take(kk).len() && #[trigger] idx.take(kk)[w] == t;
                        assert(idx.take(kk + 1)[w] == t);
                    }
                    if t == idx[kk] {
                        assert(idx.take(kk + 1)[kk] == t);
                    }
                }
            }
            k = k + 1;
        }
        proof {
            assert(idx.take(idx.len() as int) =~= idx);
        }

        let mut new_pos: Vec<usize> = Vec::new();
        let mut j2: usize = 0;
        while j2 < vert_count
            invariant
                j2 <= vert_count,
                new_pos@.len() == j2,
            decreases vert_count - j2,
        {
            new_pos.push(0);
            j2 = j2 + 1;
        }

        let mut used_count: usize = 0;
        let mut i: usize = 0;
        while i < vert_count
            invariant
                self.indices@ == idx,
                self.offset == old(self).offset,
                self.face_arity == old(self).face_arity,
                vert_count == old_verts.len(),
                self.vertices@.len() == vert_count,
                forall|t: int| 0 <= t < idx.len() ==> 0 <= #[trigger] idx[t] < vert_count,
                is_vertex_used@.len() == vert_count,
                forall|t: int| 0 <= t < vert_count ==> is_vertex_used@[t] == position_used(idx, t),
                new_pos@.len() == vert_count,
                i <= vert_count,
                used_count == compacted_position(idx, i as int),
                used_count <= i,
                self.vertices@.subrange(0, used_count as int) == compacted_vertices(
                    old_verts.take(i as int),
                    idx,
                ),
                forall|t: int| i <= t < vert_count ==> self.vertices@[t] == old_verts[t],
                forall|t: int|
                    0 <= t < i && position_used(idx, t) ==> new_pos@[t] == compacted_position(
                        idx,
                        t,
                    ),
            decreases vert_count - i,
        {
            proof {
                lemma_compacted_take_step(old_verts, idx, i as int);
                lemma_cpos_bounds(idx, i as int);
            }
            if is_vertex_used[i] {
                let ghost prefix_before = self.vertices@.subrange(0, used_count as int);
                if used_count != i {
                    let a = self.vertices[used_count];
                    let b = self.vertices[i];
                    self.vertices[used_count] = b;
                    self.vertices[i] = a;
                }
                new_pos[i] = used_count;
                used_count = used_count + 1;
                proof {
                    assert(self.vertices@.subrange(0, used_count as int) =~= prefix_before.push(
                        old_verts[i as int],
                    ));
                }
            }
            i = i + 1;
        }
        proof {
            assert(old_verts.take(vert_count as int) =~= old_verts);
        }

        self.vertices.truncate(used_count);
        proof {
            assert(self.vertices@ == compacted_vertices(old_verts, idx));
        }

        let mut k2: usize = 0;
        while k2 < self.indices.len()
            invariant
                self.vertices@ == compacted_vertices(old_verts, idx),
                self.offset == old(self).offset,
                self.face_arity == old(self).face_arity,
                self.indices@.len() == idx.len(),
                vert_count == old_verts.len(),
                vert_count <= i32::MAX,
                forall|t: int| 0 <= t < idx.len() ==> 0 <= #[trigger] idx[t] < vert_count,
                new_pos@.len() == vert_count,
                forall|t: int|
                    0 <= t < vert_count && position_used(idx, t) ==> new_pos@[t]
                        == compacted_position(idx, t),
                k2 <= idx.len(),
                forall|t: int|
                    0 <= t < k2 ==> self.indices@[t] == compacted_position(
                        idx,
                        #[trigger] idx[t] as int,
                    ),
                forall|t: int| k2 <= t < idx.len() ==> self.indices@[t] == idx[t],
            decreases idx.len() - k2,
        {
            let v = self.indices[k2];
            proof {
                assert(idx[k2 as int] == v);
                assert(position_used(idx, v as int));
                lemma_cpos_bounds(idx, v as int);
            }
            let p = new_pos[v as usize];
            self.indices[k2] = p as i32;
            k2 = k2 + 1;
        }

        proof {
            assert forall|k3: int| 0 <= k3 < idx.len() implies 0 <= #[trigger] self.indices@[k3]
                < self.vertices@.len() by {
                assert(position_used(idx, idx[k3] as int));
                lemma_compacted_maps_used(old_verts, idx, idx[k3] as int);
            }
        }
    }
}

} // verus!
