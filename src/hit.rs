use vstd::prelude::*;

verus! {

/// One of the two roots of the quadratic that a ray and a sphere give.
#[derive(Clone, Copy, Debug, PartialEq, Eq, Structural)]
pub enum Root {
    /// `(-half_b - sqrt(discriminant)) / a`, the smaller parameter.
    Near,
    /// `(-half_b + sqrt(discriminant)) / a`, the larger parameter.
    Far,
}

/// The root that a sphere reports as its hit, given whether each root lies in
/// the search interval `[t_min, t_max]`: the nearer one when it does, else the
/// farther one when it does, else none (the ray misses within the interval).
pub open spec fn chosen_root(near_in_range: bool, far_in_range: bool) -> Option<Root> {
    if near_in_range {
        Some(Root::Near)
    } else if far_in_range {
        Some(Root::Far)
    } else {
        None
    }
}

/// Picks the root that a sphere reports, from whether each root of a
/// non-negative discriminant lies in the search interval.
pub fn choose_root(near_in_range: bool, far_in_range: bool) -> (r: Option<Root>)
    ensures
        r == chosen_root(near_in_range, far_in_range),
{
    if near_in_range {
        Some(Root::Near)
    } else if far_in_range {
        Some(Root::Far)
    } else {
        None
    }
}

} // verus!
