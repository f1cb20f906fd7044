//! Passes over an assembled scene: vertex welding, and the triangle lists
//! that normal reconstruction walks.
use vstd::prelude::*;

use std::collections::HashMap;

use crate::load_flags;
use crate::scene::{Mesh, Scene, Vertex};

verus! {

/// The distinct vertices of `vs`, in the order they are first seen.
pub open spec fn first_seen(vs: Seq<Vertex>) -> Seq<Vertex>
    decreases vs.len(),
{
    if vs.len() == 0 {
        Seq::empty()
    } else {
        let p = first_seen(vs.drop_last());
        if p.contains(vs.last()) {
            p
        } else {
            p.push(vs.last())
        }
    }
}

/// The index that welding gives vertex `i` of `vs`: the position of its
/// value among the distinct vertices.
pub open spec fn weld_index(vs: Seq<Vertex>, i: int) -> int {
    first_seen(vs).index_of(vs[i])
}

/// The distinct vertices hold no value twice, and every vertex of `vs`
/// among them.
pub proof fn lemma_first_seen(vs: Seq<Vertex>)
    ensures
        first_seen(vs).no_duplicates(),
        forall|i: int| 0 <= i < vs.len() ==> first_seen(vs).contains(#[trigger] vs[i]),
        forall|k: int|
            0 <= k < first_seen(vs).len() ==> vs.contains(#[trigger] first_seen(vs)[k]),
        first_seen(vs).len() <= vs.len(),
    decreases vs.len(),
{
    if vs.len() > 0 {
        let d = vs.drop_last();
        lemma_first_seen(d);
        let p = first_seen(d);
        assert forall|i: int| 0 <= i < vs.len() implies first_seen(vs).contains(#[trigger] vs[i]) by {
            if i < vs.len() - 1 {
                assert(d[i] == vs[i]);
                assert(p.contains(d[i]));
                if !p.contains(vs.last()) {
                    let k = choose|k: int| 0 <= k < p.len() && p[k] == d[i];
                    assert(p.push(vs.last())[k] == vs[i]);
                }
            } else if !p.contains(vs.last()) {
                assert(p.push(vs.last())[p.len() as int] == vs[i]);
            }
        }
        assert forall|k: int| 0 <= k < first_seen(vs).len() implies vs.contains(
            #[trigger] first_seen(vs)[k],
        ) by {
            if k < p.len() {
                assert(d.contains(p[k]));
                let j = choose|j: int| 0 <= j < d.len() && d[j] == p[k];
                assert(vs[j] == d[j]);
            } else {
                assert(vs[vs.len() - 1] == vs.last());
            }
        }
    }
}

/// Welding law: two vertices get the same index exactly when their fields
/// are bit-identical, every index names a distinct vertex holding the same
/// value, and the distinct vertices keep the order in which they were first
/// seen.
pub proof fn lemma_weld_collapses(vs: Seq<Vertex>, i: int, j: int)
    requires
        0 <= i < vs.len(),
        0 <= j < vs.len(),
    ensures
        (vs[i] == vs[j]) <==> (weld_index(vs, i) == weld_index(vs, j)),
        0 <= weld_index(vs, i) < first_seen(vs).len(),
        first_seen(vs)[weld_index(vs, i)] == vs[i],
        first_seen(vs).no_duplicates(),
{
    lemma_first_seen(vs);
    assert(first_seen(vs).contains(vs[i]));
    assert(first_seen(vs).contains(vs[j]));
    first_seen(vs).index_of_first_ensures(vs[i]);
}

/// The bucket a vertex is filed under while welding: its position's bits
/// folded into one word.
pub open spec fn vertex_key(v: Vertex) -> u64 {
    ((v.position.x as u64) << 32u64 | v.position.y as u64) ^ (v.position.z as u64) << 16u64
}

fn key_of(v: &Vertex) -> (r: u64)
    ensures
        r == vertex_key(*v),
{
    ((v.position.x as u64) << 32u64 | v.position.y as u64) ^ (v.position.z as u64) << 16u64
}

/// Every position filed in a bucket of `m` names a vertex of `out` with
/// that bucket's key.
pub open spec fn buckets_sound(m: Map<u64, Vec<u32>>, out: Seq<Vertex>) -> bool {
    forall|k: u64, t: int|
        #![trigger m[k]@[t]]
        m.contains_key(k) && 0 <= t < m[k]@.len() ==> m[k]@[t] < out.len() && vertex_key(
            out[m[k]@[t] as int],
        ) == k
}

/// Every vertex of `out` is filed under its key.
pub open spec fn buckets_complete(m: Map<u64, Vec<u32>>, out: Seq<Vertex>) -> bool {
    forall|j: int|
        0 <= j < out.len() ==> m.contains_key(vertex_key(#[trigger] out[j])) && m[vertex_key(
            out[j],
        )]@.contains(j as u32)
}

/// The position in `bucket` of a vertex of `out` equal to `v`, if any.
fn find_in_bucket(bucket: &Vec<u32>, out: &Vec<Vertex>, v: Vertex) -> (r: Option<u32>)
    requires
        forall|t: int| 0 <= t < bucket@.len() ==> #[trigger] bucket@[t] < out@.len(),
    ensures
        match r {
            Some(id) => id < out@.len() && out@[id as int] == v,
            None => forall|t: int| 0 <= t < bucket@.len() ==> out@[#[trigger] bucket@[t] as int] != v,
        },
{
    let mut t: usize = 0;
    while t < bucket.len()
        invariant
            0 <= t <= bucket@.len(),
            forall|s: int| 0 <= s < bucket@.len() ==> #[trigger] bucket@[s] < out@.len(),
            forall|s: int| 0 <= s < t ==> out@[#[trigger] bucket@[s] as int] != v,
        decreases bucket.len() - t,
    {
        let id = bucket[t];
        if out[id as usize] == v {
            return Some(id);
        }
        t = t + 1;
    }
    None
}

/// Welds `vs`: the distinct vertices in the order they are first seen, and
/// for each vertex of `vs` the position of its value among them.
pub fn weld(vs: &Vec<Vertex>) -> (r: (Vec<Vertex>, Vec<u32>))
    requires
        vs@.len() <= u32::MAX + 1,
    ensures
        r.0@ == first_seen(vs@),
        r.1@.len() == vs@.len(),
        forall|i: int| 0 <= i < vs@.len() ==> #[trigger] r.1@[i] == weld_index(vs@, i),
        forall|i: int| 0 <= i < vs@.len() ==> #[trigger] r.1@[i] < r.0@.len(),
{
    broadcast use vstd::std_specs::hash::group_hash_axioms;

    let mut out: Vec<Vertex> = Vec::new();
    let mut indices: Vec<u32> = Vec::new();
    let mut buckets: HashMap<u64, Vec<u32>> = HashMap::new();
    let mut i: usize = 0;
    assert(vs@.subrange(0, 0) =~= Seq::<Vertex>::empty());
    while i < vs.len()
        invariant
            0 <= i <= vs@.len() <= u32::MAX + 1,
            out@ == first_seen(vs@.subrange(0, i as int)),
            out@.len() <= i,
            buckets_sound(buckets@, out@),
            buckets_complete(buckets@, out@),
            indices@.len() == i,
            forall|j: int|
                0 <= j < i ==> #[trigger] indices@[j] < out@.len() && out@[indices@[j] as int]
                    == vs@[j],
        decreases vs.len() - i,
    {
        let v = vs[i];
        let key = key_of(&v);
        let ghost prefix = vs@.subrange(0, i as int);
        let ghost before = buckets@;
        assert(vs@.subrange(0, i + 1).drop_last() =~= prefix);
        assert(vs@.subrange(0, i + 1).last() == v);
        let mut bucket = match buckets.remove(&key) {
            Some(b) => b,
            None => Vec::new(),
        };
        assert(buckets@ == before.remove(key));
        assert(before.contains_key(key) ==> bucket == before[key]);
        assert(!before.contains_key(key) ==> bucket@.len() == 0);
        assert forall|t: int| 0 <= t < bucket@.len() implies #[trigger] bucket@[t] < out@.len() by {
            assert(before[key]@[t] < out@.len());
        }
        match find_in_bucket(&bucket, &out, v) {
            Some(id) => {
                assert(out@.contains(v));
                buckets.insert(key, bucket);
                assert(buckets@ =~= before);
                indices.push(id);
            },
            None => {
                assert(!out@.contains(v)) by {
                    if out@.contains(v) {
                        let j = choose|j: int| 0 <= j < out@.len() && out@[j] == v;
                        assert(vertex_key(out@[j]) == key);
                        assert(before[key]@.contains(j as u32));
                        let t = choose|t: int|
                            0 <= t < before[key]@.len() && before[key]@[t] == j as u32;
                        assert(out@[bucket@[t] as int] != v);
                    }
                }
                proof {
                    lemma_first_seen(prefix);
                }
                let id = out.len() as u32;
                let ghost old_out = out@;
                let ghost old_bucket = bucket@;
                out.push(v);
                bucket.push(id);
                buckets.insert(key, bucket);
                assert(buckets_sound(buckets@, out@)) by {
                    assert forall|k: u64, t: int|
                        buckets@.contains_key(k) && 0 <= t < buckets@[k]@.len() implies #[trigger] buckets@[k]@[t]
                        < out@.len() && vertex_key(out@[buckets@[k]@[t] as int]) == k by {
                        if k != key {
                            assert(buckets@[k] == before[k]);
                            assert(before[k]@[t] < old_out.len());
                        } else if t < old_bucket.len() {
                            assert(buckets@[k]@[t] == old_bucket[t]);
                            assert(before[key]@[t] == old_bucket[t]);
                        }
                    }
                }
                assert(buckets_complete(buckets@, out@)) by {
                    assert forall|j: int| 0 <= j < out@.len() implies buckets@.contains_key(
                        vertex_key(#[trigger] out@[j]),
                    ) && buckets@[vertex_key(out@[j])]@.contains(j as u32) by {
                        if j < old_out.len() {
                            assert(out@[j] == old_out[j]);
                            let k = vertex_key(old_out[j]);
                            assert(before[k]@.contains(j as u32));
                            if k == key {
                                let t = choose|t: int|
                                    0 <= t < before[k]@.len() && before[k]@[t] == j as u32;
                                assert(buckets@[k]@[t] == j as u32);
                            }
                        } else {
                            assert(buckets@[key]@[old_bucket.len() as int] == id);
                        }
                    }
                }
                indices.push(id);
            },
        }
        i = i + 1;
    }
    assert(vs@.subrange(0, vs@.len() as int) =~= vs@);
    proof {
        lemma_first_seen(vs@);
        assert forall|j: int| 0 <= j < vs@.len() implies #[trigger] indices@[j] == weld_index(vs@, j) by {
            let s = first_seen(vs@);
            s.index_of_first_ensures(vs@[j]);
            assert(s[indices@[j] as int] == vs@[j]);
            if s.index_of(vs@[j]) != indices@[j] as int {
                assert(s[s.index_of(vs@[j])] == vs@[j]);
            }
        }
    }
    (out, indices)
}

/// Gives every mesh without indices an index array, welding its
/// bit-identical vertices. Meshes that have indices are left unchanged.
pub fn generate_indices(scene: &mut Scene)
    requires
        old(scene).wf(),
    ensures
        final(scene).wf(),
        final(scene).materials == old(scene).materials,
        final(scene).images == old(scene).images,
        final(scene).meshes@.len() == old(scene).meshes@.len(),
        forall|m: int|
            0 <= m < old(scene).meshes@.len() ==> mesh_welded(
                #[trigger] old(scene).meshes@[m],
                final(scene).meshes@[m],
            ),
{
    let n = scene.meshes.len();
    let mut m: usize = 0;
    while m < n
        invariant
            0 <= m <= n,
            n == scene.meshes@.len(),
            n == old(scene).meshes@.len(),
            scene.wf(),
            scene.materials == old(scene).materials,
            scene.images == old(scene).images,
            forall|j: int| 0 <= j < m ==> mesh_welded(#[trigger] old(scene).meshes@[j], scene.meshes@[j]),
            forall|j: int| m <= j < n ==> #[trigger] scene.meshes@[j] == old(scene).meshes@[j],
        decreases n - m,
    {
        if scene.meshes[m].indices.is_none() {
            let (vertices, indices) = weld(&scene.meshes[m].vertices);
            let material = scene.meshes[m].material;
            proof {
                lemma_first_seen(scene.meshes@[m as int].vertices@);
            }
            let mesh = Mesh { vertices, indices: Some(indices), material };
            scene.meshes.set(m, mesh);
        }
        m = m + 1;
    }
}

/// `after` is what welding makes of `before`: unchanged where it has
/// indices; otherwise its distinct vertices in first-seen order, with each
/// input vertex's position among them as its index.
pub open spec fn mesh_welded(before: Mesh, after: Mesh) -> bool {
    if before.indices is Some {
        after == before
    } else {
        let vs = before.vertices@;
        &&& after.vertices@ == first_seen(vs)
        &&& after.indices is Some
        &&& after.indices.unwrap()@.len() == vs.len()
        &&& forall|i: int|
            0 <= i < vs.len() ==> #[trigger] after.indices.unwrap()@[i] == weld_index(vs, i)
        &&& after.material == before.material
    }
}

/// Welding twice is welding once: a welded mesh has indices, so a second
/// pass leaves it as it is.
pub proof fn lemma_weld_idempotent(before: Mesh, once: Mesh, twice: Mesh)
    requires
        mesh_welded(before, once),
        mesh_welded(once, twice),
    ensures
        once.indices is Some,
        twice == once,
{
}

/// Applies the passes that `flags` asks for and that need no arithmetic on
/// the values: index generation. Normal reconstruction computes with the
/// floating-point values and is left to the caller, over the triangles
/// that `triangles` lists.
pub fn post_process(scene: &mut Scene, flags: u32)
    requires
        old(scene).wf(),
    ensures
        final(scene).wf(),
        final(scene).materials == old(scene).materials,
        final(scene).images == old(scene).images,
        flags & load_flags::GENERATE_INDICES == 0 ==> *final(scene) == *old(scene),
        flags & load_flags::GENERATE_INDICES != 0 ==> final(scene).meshes@.len() == old(
            scene,
        ).meshes@.len() && forall|m: int|
            0 <= m < old(scene).meshes@.len() ==> mesh_welded(
                #[trigger] old(scene).meshes@[m],
                final(scene).meshes@[m],
            ),
{
    if flags & load_flags::GENERATE_INDICES != 0 {
        generate_indices(scene);
    }
}

/// The triangle at position `t` of mesh `m`: three entries of its index
/// array, or three consecutive vertices where it has none.
pub open spec fn triangle_at(m: Mesh, t: int) -> (usize, usize, usize) {
    match m.indices {
        Some(ix) => (ix@[3 * t] as usize, ix@[3 * t + 1] as usize, ix@[3 * t + 2] as usize),
        None => ((3 * t) as usize, (3 * t + 1) as usize, (3 * t + 2) as usize),
    }
}

/// The number of whole triangles of mesh `m`; a trailing group of fewer
/// than three corners forms none.
pub open spec fn triangle_count(m: Mesh) -> int {
    match m.indices {
        Some(ix) => (ix@.len() / 3) as int,
        None => (m.vertices@.len() / 3) as int,
    }
}

/// In a mesh without indices no two triangles share a vertex, so each
/// vertex takes part in exactly one triangle: normals accumulated per
/// triangle come out flat.
pub proof fn lemma_unindexed_triangles_disjoint(m: Mesh, s: int, t: int)
    requires
        m.indices is None,
        0 <= s < t < triangle_count(m),
        m.wf(),
    ensures
        triangle_at(m, s).0 != triangle_at(m, t).0,
        triangle_at(m, s).0 != triangle_at(m, t).1,
        triangle_at(m, s).0 != triangle_at(m, t).2,
        triangle_at(m, s).1 != triangle_at(m, t).0,
        triangle_at(m, s).1 != triangle_at(m, t).1,
        triangle_at(m, s).1 != triangle_at(m, t).2,
        triangle_at(m, s).2 != triangle_at(m, t).0,
        triangle_at(m, s).2 != triangle_at(m, t).1,
        triangle_at(m, s).2 != triangle_at(m, t).2,
{
    assert(3 * t + 2 < m.vertices@.len());
}

/// Lists the triangles of `mesh` as vertex positions, in order.
pub fn triangles(mesh: &Mesh) -> (r: Vec<(usize, usize, usize)>)
    requires
        mesh.wf(),
    ensures
        r@.len() == triangle_count(*mesh),
        forall|t: int| 0 <= t < r@.len() ==> #[trigger] r@[t] == triangle_at(*mesh, t),
        forall|t: int|
            0 <= t < r@.len() ==> (#[trigger] r@[t]).0 < mesh.vertices@.len() && r@[t].1
                < mesh.vertices@.len() && r@[t].2 < mesh.vertices@.len(),
{
    let mut out: Vec<(usize, usize, usize)> = Vec::new();
    let count = match &mesh.indices {
        Some(ix) => ix.len() / 3,
        None => mesh.vertices.len() / 3,
    };
    let mut t: usize = 0;
    while t < count
        invariant
            0 <= t <= count,
            count == triangle_count(*mesh),
            mesh.wf(),
            out@.len() == t,
            forall|s: int| 0 <= s < t ==> #[trigger] out@[s] == triangle_at(*mesh, s),
            forall|s: int|
                0 <= s < t ==> (#[trigger] out@[s]).0 < mesh.vertices@.len() && out@[s].1
                    < mesh.vertices@.len() && out@[s].2 < mesh.vertices@.len(),
        decreases count - t,
    {
        let corners = match &mesh.indices {
            Some(ix) => {
                let len = ix.len();
                assert(3 * t + 2 < ix@.len());
                (ix[3 * t] as usize, ix[3 * t + 1] as usize, ix[3 * t + 2] as usize)
            },
            None => (3 * t, 3 * t + 1, 3 * t + 2),
        };
        out.push(corners);
        t = t + 1;
    }
    out
}

} // verus!
