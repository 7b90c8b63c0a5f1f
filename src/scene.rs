//! Intersection decisions: which root of a sphere's quadratic is the hit, and
//! which member of a scene is hit first.
//!
//! Ray parameters are given as order keys: integers whose order is the order
//! of the parameters they stand for.
//!
//! Each member of a scene reports either no intersection or the ray parameter `t` of its
//! intersection, given as an order key: an integer whose order is the order of
//! the parameters it stands for. The scene keeps the member with the smallest
//! key, starting from the key of the query's upper bound; a later member whose
//! key equals the best so far replaces it.
use vstd::prelude::*;

verus! {

/// The root of a sphere's quadratic that an intersection lies at.
#[derive(Clone, Copy, Debug, PartialEq, Eq, Structural)]
pub enum Root {
    /// The smaller root: the near surface.
    Near,
    /// The larger root: the far surface.
    Far,
}

/// `t` lies in `[t_min, t_max]`.
pub open spec fn in_range(t: u64, t_min: u64, t_max: u64) -> bool {
    t_min <= t && t <= t_max
}

/// The root that a sphere's intersection is at, given the keys of the near
/// and far roots: the near one where it lies in range, else the far one where
/// it does, else none. This is what makes a hollow sphere report its near
/// surface first.
pub fn pick_root(near: u64, far: u64, t_min: u64, t_max: u64) -> (r: Option<Root>)
    requires
        t_min <= t_max,
    ensures
        r == (if in_range(near, t_min, t_max) {
            Some(Root::Near)
        } else if in_range(far, t_min, t_max) {
            Some(Root::Far)
        } else {
            None
        }),
{
    if near < t_min || near > t_max {
        if far < t_min || far > t_max {
            None
        } else {
            Some(Root::Far)
        }
    } else {
        Some(Root::Near)
    }
}

/// `i` is the nearest hit among `keys`: a hit within `bound`, no hit is
/// nearer, and no later hit is as near.
pub open spec fn is_nearest(keys: Seq<Option<u64>>, bound: u64, i: int) -> bool {
    &&& 0 <= i < keys.len()
    &&& keys[i] is Some
    &&& keys[i].unwrap() <= bound
    &&& forall|j: int|
        0 <= j < keys.len() && keys[j] is Some ==> keys[i].unwrap() <= keys[j].unwrap()
    &&& forall|j: int| i < j < keys.len() && keys[j] is Some ==> keys[i].unwrap() < keys[j].unwrap()
}

/// Some member reports a hit within `bound`.
pub open spec fn any_hit(keys: Seq<Option<u64>>, bound: u64) -> bool {
    exists|j: int| 0 <= j < keys.len() && keys[j] is Some && keys[j].unwrap() <= bound
}

/// Picks the member whose hit is nearest, as the scene's `hit` does.
pub fn nearest_hit(keys: &Vec<Option<u64>>, bound: u64) -> (r: Option<usize>)
    ensures
        r is None <==> !any_hit(keys@, bound),
        r matches Some(i) ==> is_nearest(keys@, bound, i as int),
{
    let mut best: u64 = bound;
    let mut chosen: Option<usize> = None;
    let mut n: usize = 0;
    while n < keys.len()
        invariant
            n <= keys@.len(),
            chosen is None ==> {
                &&& best == bound
                &&& forall|j: int| 0 <= j < n && keys@[j] is Some ==> keys@[j].unwrap() > bound
            },
            chosen matches Some(i) ==> {
                &&& i < n
                &&& keys@[i as int] == Some(best)
                &&& best <= bound
                &&& forall|j: int| 0 <= j < n && keys@[j] is Some ==> best <= keys@[j].unwrap()
                &&& forall|j: int| i < j < n && keys@[j] is Some ==> best < keys@[j].unwrap()
            },
        decreases keys@.len() - n,
    {
        if let Some(k) = keys[n] {
            if k <= best {
                best = k;
                chosen = Some(n);
            }
        }
        n = n + 1;
    }
    chosen
}

} // verus!
