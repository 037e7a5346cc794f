//! Which root of a ray/sphere quadratic a hit reports.
use vstd::prelude::*;

verus! {

/// One of the two roots of the quadratic, `(h - sqrt(d)) / a` or
/// `(h + sqrt(d)) / a`.
#[derive(Clone, Copy, Debug, PartialEq, Eq, Structural)]
pub enum Root {
    Near,
    Far,
}

/// The root a hit reports, given whether each root lies strictly inside the
/// query interval: the nearer one where it does, else the farther one where
/// it does, else none (the ray misses within the interval).
pub fn pick_root(near_inside: bool, far_inside: bool) -> (r: Option<Root>)
    ensures
        r == (if near_inside {
            Some(Root::Near)
        } else if far_inside {
            Some(Root::Far)
        } else {
            None
        }),
{
    if near_inside {
        Some(Root::Near)
    } else if far_inside {
        Some(Root::Far)
    } else {
        None
    }
}

} // verus!
