use vstd::prelude::*;

verus! {

/// The corners of triangle `t` of a flat index list, counted from one as the
/// text mesh format counts them.
pub open spec fn face_of(indices: Seq<usize>, t: int) -> Seq<int> {
    seq![indices[3 * t] + 1, indices[3 * t + 1] + 1, indices[3 * t + 2] + 1]
}

/// The faces of a flat index list, one for every three indices in a row.
/// Indices at the end that do not fill a triangle belong to none.
pub open spec fn faces_of(indices: Seq<usize>) -> Seq<Seq<int>> {
    Seq::new(indices.len() / 3, |t: int| face_of(indices, t))
}

/// Faces as sequences of mathematical integers.
pub open spec fn face_ints(faces: Seq<[usize; 3]>) -> Seq<Seq<int>> {
    faces.map_values(|f: [usize; 3]| seq![f[0] as int, f[1] as int, f[2] as int])
}

/// The face lines of a triangle mesh given by its flat index list: for each
/// triangle its three corners, counted from one.
pub fn face_indices(indices: &Vec<usize>) -> (faces: Vec<[usize; 3]>)
    requires
        forall|k: int| 0 <= k < indices@.len() ==> indices@[k] < usize::MAX,
    ensures
        face_ints(faces@) == faces_of(indices@),
{
    let count: usize = indices.len() / 3;
    let mut faces: Vec<[usize; 3]> = Vec::new();
    let mut t: usize = 0;
    while t < count
        invariant
            t <= count,
            count == indices@.len() / 3,
            indices@.len() <= usize::MAX,
            forall|k: int| 0 <= k < indices@.len() ==> indices@[k] < usize::MAX,
            face_ints(faces@) =~~= faces_of(indices@).take(t as int),
        decreases count - t,
    {
        let ghost before = faces@;
        let face = [indices[3 * t] + 1, indices[3 * t + 1] + 1, indices[3 * t + 2] + 1];
        faces.push(face);
        proof {
            assert(face_ints(faces@) =~~= face_ints(before).push(
                seq![face[0] as int, face[1] as int, face[2] as int],
            ));
            assert(faces_of(indices@).take(t as int + 1) =~~= faces_of(indices@).take(
                t as int,
            ).push(face_of(indices@, t as int)));
            assert(face_of(indices@, t as int) =~= seq![
                face[0] as int,
                face[1] as int,
                face[2] as int,
            ]);
        }
        t = t + 1;
    }
    assert(faces_of(indices@).take(count as int) =~~= faces_of(indices@));
    faces
}

} // verus!
