//! The first of the least among distances.

use crate::scalar::Scalar;
use vstd::prelude::*;

verus! {

/// Every distance is a real number.
pub open spec fn all_real(distances: Seq<Scalar>) -> bool {
    forall|i: int| 0 <= i < distances.len() ==> (#[trigger] distances[i]).spec_is_real()
}

/// The index of the least distance; where several are least, of the first
/// of them.
pub open spec fn first_least(distances: Seq<Scalar>) -> int
    decreases distances.len(),
{
    if distances.len() <= 1 {
        0
    } else {
        let before = first_least(distances.drop_last());
        if distances.last().below(distances[before]) {
            distances.len() - 1
        } else {
            before
        }
    }
}

/// The index of the first of the least distances, unless that distance
/// exceeds `max_distance` or there is no distance at all.
pub open spec fn closest(distances: Seq<Scalar>, max_distance: Scalar) -> Option<int> {
    if distances.len() == 0 || max_distance.below(distances[first_least(distances)]) {
        None
    } else {
        Some(first_least(distances))
    }
}

/// Among real distances, none is below the one at `first_least`, and every
/// one before it is above it.
pub proof fn lemma_first_least(distances: Seq<Scalar>)
    requires
        distances.len() > 0,
        all_real(distances),
    ensures
        0 <= first_least(distances) < distances.len(),
        forall|j: int|
            0 <= j < distances.len() ==> !(#[trigger] distances[j]).below(
                distances[first_least(distances)],
            ),
        forall|j: int|
            0 <= j < first_least(distances) ==> distances[first_least(distances)].below(
                #[trigger] distances[j],
            ),
    decreases distances.len(),
{
    if distances.len() > 1 {
        let front = distances.drop_last();
        assert forall|i: int| 0 <= i < front.len() implies (#[trigger] front[i]).spec_is_real() by {
            assert(front[i] == distances[i]);
        }
        lemma_first_least(front);
        let before = first_least(front);
        let least = first_least(distances);
        assert(distances[before].spec_is_real());
        assert(distances.last().spec_is_real());
        assert forall|j: int| 0 <= j < distances.len() implies !(#[trigger] distances[j]).below(
            distances[least],
        ) by {
            if j < front.len() {
                assert(front[j] == distances[j]);
                assert(!front[j].below(front[before]));
            }
        }
        assert forall|j: int| 0 <= j < least implies distances[least].below(
            #[trigger] distances[j],
        ) by {
            assert(front[j] == distances[j]);
            assert(distances[j].spec_is_real());
            if least == before {
                assert(front[before].below(front[j]));
            } else {
                assert(!front[j].below(front[before]));
            }
        }
    }
}

/// The index of the closest: of the first of the least distances, unless
/// even that exceeds `max_distance`.
pub fn closest_index(distances: &Vec<Scalar>, max_distance: Scalar) -> (found: Option<usize>)
    requires
        all_real(distances@),
        max_distance.spec_is_real(),
    ensures
        match found {
            Some(i) => closest(distances@, max_distance) == Some(i as int),
            None => closest(distances@, max_distance).is_none(),
        },
        match found {
            Some(i) => {
                &&& i < distances@.len()
                &&& !max_distance.below(distances@[i as int])
                &&& forall|j: int|
                    0 <= j < distances@.len() ==> !(#[trigger] distances@[j]).below(
                        distances@[i as int],
                    )
                &&& forall|j: int| 0 <= j < i ==> distances@[i as int].below(#[trigger] distances@[j])
            },
            None => forall|j: int|
                0 <= j < distances@.len() ==> max_distance.below(#[trigger] distances@[j]),
        },
        (forall|j: int| 0 <= j < distances@.len() ==> max_distance.below(#[trigger] distances@[j]))
            ==> found.is_none(),
{
    if distances.len() == 0 {
        return None;
    }
    let mut best: usize = 0;
    let mut i: usize = 1;
    proof {
        assert(distances@.take(1).len() == 1);
    }
    while i < distances.len()
        invariant
            1 <= i <= distances.len(),
            best < i,
            best == first_least(distances@.take(i as int)),
        decreases distances.len() - i,
    {
        proof {
            let longer = distances@.take(i + 1);
            assert(longer.drop_last() =~= distances@.take(i as int));
            assert(longer.last() == distances@[i as int]);
            assert(longer[best as int] == distances@[best as int]);
        }
        if distances[i].less_than(distances[best]) {
            best = i;
        }
        i += 1;
    }
    proof {
        assert(distances@.take(distances.len() as int) =~= distances@);
        lemma_first_least(distances@);
        assert(distances@[best as int].spec_is_real());
    }
    if max_distance.less_than(distances[best]) {
        proof {
            assert forall|j: int| 0 <= j < distances@.len() implies max_distance.below(
                #[trigger] distances@[j],
            ) by {
                assert(distances@[j].spec_is_real());
                assert(!distances@[j].below(distances@[best as int]));
            }
        }
        None
    } else {
        Some(best)
    }
}

} // verus!
