use vstd::prelude::*;
use crate::error::ConvertError;

verus! {

/// One part of a loaded model, as a mesh loader hands it over: the
/// coordinates of its vertices, three in a row for each vertex, and indices
/// that count the part's own vertices from zero.
#[derive(Debug, PartialEq)]
pub struct SubMesh<T> {
    pub positions: Vec<T>,
    pub indices: Vec<u32>,
}

/// A whole model in one vertex buffer and one index buffer. Three indices in
/// a row name the corners of one triangle.
#[derive(Debug, PartialEq)]
pub struct Mesh<T> {
    pub vertices: Vec<[T; 3]>,
    pub indices: Vec<usize>,
}

/// Vertices as triples of coordinates.
pub open spec fn triples<T>(vertices: Seq<[T; 3]>) -> Seq<(T, T, T)> {
    vertices.map_values(|v: [T; 3]| (v[0], v[1], v[2]))
}

/// Indices as mathematical integers.
pub open spec fn ints(indices: Seq<usize>) -> Seq<int> {
    indices.map_values(|i: usize| i as int)
}

/// The vertices that a flat list of coordinates holds, in order. Coordinates
/// at the end that do not fill a vertex belong to none.
pub open spec fn vertices_of<T>(positions: Seq<T>) -> Seq<(T, T, T)> {
    Seq::new(
        positions.len() / 3,
        |k: int| (positions[3 * k], positions[3 * k + 1], positions[3 * k + 2]),
    )
}

/// A part's indices, each moved up by the number of vertices that stand
/// before the part's own in the merged buffer.
pub open spec fn rebased(indices: Seq<u32>, base: nat) -> Seq<int> {
    Seq::new(indices.len(), |j: int| indices[j] + base)
}

/// The vertices of all parts, part after part.
pub open spec fn merged_vertices<T>(parts: Seq<SubMesh<T>>) -> Seq<(T, T, T)>
    decreases parts.len(),
{
    if parts.len() == 0 {
        Seq::empty()
    } else {
        merged_vertices(parts.drop_last()) + vertices_of(parts.last().positions@)
    }
}

/// The indices of all parts, part after part, each part's moved up by the
/// number of vertices in the parts before it.
pub open spec fn merged_indices<T>(parts: Seq<SubMesh<T>>) -> Seq<int>
    decreases parts.len(),
{
    if parts.len() == 0 {
        Seq::empty()
    } else {
        merged_indices(parts.drop_last()) + rebased(
            parts.last().indices@,
            merged_vertices(parts.drop_last()).len(),
        )
    }
}

/// Every index names one of `count` vertices.
pub open spec fn indices_in_range(indices: Seq<int>, count: nat) -> bool {
    forall|k: int| 0 <= k < indices.len() ==> 0 <= #[trigger] indices[k] < count
}

impl<T> Mesh<T> {
    /// Every index names a vertex of this mesh.
    pub open spec fn well_formed(&self) -> bool {
        indices_in_range(ints(self.indices@), self.vertices@.len())
    }
}

/// What the first `n` parts give is the beginning of what all parts give.
pub proof fn lemma_merged_prefix<T>(parts: Seq<SubMesh<T>>, n: int)
    requires
        0 <= n <= parts.len(),
    ensures
        merged_vertices(parts.take(n)).len() <= merged_vertices(parts).len(),
        merged_indices(parts.take(n)).len() <= merged_indices(parts).len(),
        forall|i: int|
            0 <= i < merged_indices(parts.take(n)).len() ==> merged_indices(parts)[i]
                == merged_indices(parts.take(n))[i],
    decreases parts.len(),
{
    if n == parts.len() {
        assert(parts.take(n) =~= parts);
    } else {
        lemma_merged_prefix(parts.drop_last(), n);
        assert(parts.drop_last().take(n) =~= parts.take(n));
    }
}

/// The first `n + 1` parts give what the first `n` give, and then part `n`.
pub proof fn lemma_merged_step<T>(parts: Seq<SubMesh<T>>, n: int)
    requires
        0 <= n < parts.len(),
    ensures
        merged_vertices(parts.take(n + 1)) == merged_vertices(parts.take(n)) + vertices_of(
            parts[n].positions@,
        ),
        merged_indices(parts.take(n + 1)) == merged_indices(parts.take(n)) + rebased(
            parts[n].indices@,
            merged_vertices(parts.take(n)).len(),
        ),
{
    assert(parts.take(n + 1).drop_last() =~= parts.take(n));
    assert(parts.take(n + 1).last() == parts[n]);
}

/// The vertices of all parts in one buffer.
fn merge_vertices<T: Copy>(parts: &Vec<SubMesh<T>>) -> (vertices: Vec<[T; 3]>)
    ensures
        triples(vertices@) == merged_vertices(parts@),
{
    let mut vertices: Vec<[T; 3]> = Vec::new();
    let mut p: usize = 0;
    while p < parts.len()
        invariant
            p <= parts.len(),
            triples(vertices@) =~= merged_vertices(parts@.take(p as int)),
        decreases parts.len() - p,
    {
        let positions = &parts[p].positions;
        let count: usize = positions.len() / 3;
        let mut k: usize = 0;
        while k < count
            invariant
                k <= count,
                count == positions@.len() / 3,
                positions@.len() <= usize::MAX,
                triples(vertices@) =~= merged_vertices(parts@.take(p as int)) + vertices_of(
                    positions@,
                ).take(k as int),
            decreases count - k,
        {
            let ghost before = vertices@;
            let vertex = [positions[3 * k], positions[3 * k + 1], positions[3 * k + 2]];
            vertices.push(vertex);
            proof {
                assert(triples(vertices@) =~= triples(before).push(
                    (vertex[0], vertex[1], vertex[2]),
                ));
                assert(vertices_of(positions@).take(k as int + 1) =~= vertices_of(
                    positions@,
                ).take(k as int).push(vertices_of(positions@)[k as int]));
            }
            k = k + 1;
        }
        proof {
            lemma_merged_step(parts@, p as int);
            assert(vertices_of(positions@).take(count as int) =~= vertices_of(positions@));
        }
        p = p + 1;
    }
    proof {
        assert(parts@.take(parts.len() as int) =~= parts@);
    }
    vertices
}

/// The indices of all parts in one buffer, or the refusal of an index that
/// names none of the `total` merged vertices.
fn merge_indices<T>(parts: &Vec<SubMesh<T>>, total: usize) -> (result: Result<
    Vec<usize>,
    ConvertError,
>)
    requires
        total == merged_vertices(parts@).len(),
    ensures
        match result {
            Ok(indices) => ints(indices@) == merged_indices(parts@) && indices_in_range(
                merged_indices(parts@),
                total as nat,
            ),
            Err(e) => e == ConvertError::IndexOutOfRange && !indices_in_range(
                merged_indices(parts@),
                total as nat,
            ),
        },
{
    let mut merged: Vec<usize> = Vec::new();
    let mut base: usize = 0;
    let mut p: usize = 0;
    while p < parts.len()
        invariant
            p <= parts.len(),
            total == merged_vertices(parts@).len(),
            base == merged_vertices(parts@.take(p as int)).len(),
            ints(merged@) =~= merged_indices(parts@.take(p as int)),
            indices_in_range(merged_indices(parts@.take(p as int)), total as nat),
        decreases parts.len() - p,
    {
        let local = &parts[p].indices;
        let mut j: usize = 0;
        proof {
            lemma_merged_step(parts@, p as int);
            lemma_merged_prefix(parts@, p as int + 1);
        }
        while j < local.len()
            invariant
                j <= local.len(),
                ints(merged@) =~= merged_indices(parts@.take(p as int)) + rebased(
                    local@,
                    base as nat,
                ).take(j as int),
                indices_in_range(ints(merged@), total as nat),
                total == merged_vertices(parts@).len(),
                merged_indices(parts@.take(p as int + 1)) == merged_indices(
                    parts@.take(p as int),
                ) + rebased(local@, base as nat),
                merged_indices(parts@.take(p as int + 1)).len() <= merged_indices(parts@).len(),
                forall|i: int|
                    0 <= i < merged_indices(parts@.take(p as int + 1)).len() ==> merged_indices(
                        parts@,
                    )[i] == merged_indices(parts@.take(p as int + 1))[i],
            decreases local.len() - j,
        {
            let moved = (local[j] as usize).checked_add(base);
            let within = match moved {
                Some(m) => m < total,
                None => false,
            };
            if !within {
                proof {
                    let at = merged@.len() as int;
                    let upto = merged_indices(parts@.take(p as int + 1));
                    assert(ints(merged@).len() == merged@.len());
                    assert(upto[at] == rebased(local@, base as nat)[j as int]);
                    assert(merged_indices(parts@)[at] == local@[j as int] + base);
                }
                return Err(ConvertError::IndexOutOfRange);
            }
            let ghost before = merged@;
            let index = moved.unwrap();
            merged.push(index);
            proof {
                assert(ints(merged@) =~= ints(before).push(index as int));
                assert(rebased(local@, base as nat).take(j as int + 1) =~= rebased(
                    local@,
                    base as nat,
                ).take(j as int).push(rebased(local@, base as nat)[j as int]));
            }
            j = j + 1;
        }
        proof {
            assert(rebased(local@, base as nat).take(local@.len() as int) =~= rebased(
                local@,
                base as nat,
            ));
        }
        base = base + parts[p].positions.len() / 3;
        p = p + 1;
    }
    proof {
        assert(parts@.take(parts.len() as int) =~= parts@);
    }
    Ok(merged)
}

/// Merges the parts of a model into one mesh: the vertices part after part,
/// and each part's indices moved up by the number of vertices that the parts
/// before it hold. An index that then names no vertex of the merged buffer
/// is refused, and nothing else is.
pub fn assemble<T: Copy>(parts: &Vec<SubMesh<T>>) -> (result: Result<Mesh<T>, ConvertError>)
    ensures
        match result {
            Ok(mesh) => triples(mesh.vertices@) == merged_vertices(parts@) && ints(mesh.indices@)
                == merged_indices(parts@) && mesh.well_formed(),
            Err(e) => e == ConvertError::IndexOutOfRange && !indices_in_range(
                merged_indices(parts@),
                merged_vertices(parts@).len(),
            ),
        },
{
    let vertices = merge_vertices(parts);
    proof {
        assert(triples(vertices@).len() == vertices@.len());
    }
    match merge_indices(parts, vertices.len()) {
        Ok(indices) => Ok(Mesh { vertices, indices }),
        Err(e) => Err(e),
    }
}

} // verus!
