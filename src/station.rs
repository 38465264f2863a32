use crate::error::Error;
use vstd::prelude::*;

verus! {

/// Whether position `i` of `keys` holds the least key and no earlier position
/// holds one as small.
pub open spec fn is_first_minimum(keys: Seq<u64>, i: int) -> bool {
    &&& 0 <= i < keys.len()
    &&& forall|k: int| 0 <= k < keys.len() ==> keys[i] <= #[trigger] keys[k]
    &&& forall|k: int| 0 <= k < i ==> keys[i] < #[trigger] keys[k]
}

/// The position of the nearest station, given for each station, in the order
/// of the list, a key that orders as its distance does. Ties go to the
/// station that comes first. An empty list is not found.
pub fn closest_index(keys: &Vec<u64>) -> (r: Result<usize, Error>)
    ensures
        keys@.len() == 0 <==> r matches Err(Error::NotFound),
        r is Ok ==> is_first_minimum(keys@, r->Ok_0 as int),
        r is Ok || r matches Err(Error::NotFound),
{
    if keys.len() == 0 {
        return Err(Error::NotFound);
    }
    let mut best: usize = 0;
    let mut i: usize = 1;
    while i < keys.len()
        invariant
            1 <= i <= keys@.len(),
            best < i,
            forall|k: int| 0 <= k < i ==> keys@[best as int] <= #[trigger] keys@[k],
            forall|k: int| 0 <= k < best ==> keys@[best as int] < #[trigger] keys@[k],
        decreases keys@.len() - i,
    {
        if keys[i] < keys[best] {
            best = i;
        }
        i = i + 1;
    }
    Ok(best)
}

} // verus!
