//! What a material does with a ray that reached it: absorb it, or send it on
//! in one of a few ways. The geometric tests that these choices depend on are
//! made by the caller and handed in as booleans.
use vstd::prelude::*;

verus! {

/// How a ray leaves a surface, or that it does not.
#[derive(Clone, Copy, Debug, PartialEq, Eq, Structural)]
pub enum Bounce {
    /// The ray ends here and carries no light.
    Absorbed,
    /// Diffuse scatter along the normal plus a random unit vector.
    Diffuse,
    /// Diffuse scatter straight along the normal, where the sum above was
    /// too close to zero to serve as a direction.
    AlongNormal,
    /// Mirror reflection about the normal (perturbed by the fuzz for a metal).
    Reflected,
    /// Refraction through the surface by Snell's law.
    Refracted,
}

impl Bounce {
    /// Whether the ray goes on.
    pub open spec fn scatters(self) -> bool {
        !(self is Absorbed)
    }

    /// Whether the ray goes on.
    pub fn is_scattered(&self) -> (r: bool)
        ensures
            r == self.scatters(),
    {
        match self {
            Bounce::Absorbed => false,
            _ => true,
        }
    }
}

/// A diffuse (Lambertian) surface always scatters; it falls back to the
/// normal when the sampled direction is degenerate.
pub fn lambertian_bounce(degenerate: bool) -> (r: Bounce)
    ensures
        r.scatters(),
        r == (if degenerate {
            Bounce::AlongNormal
        } else {
            Bounce::Diffuse
        }),
{
    if degenerate {
        Bounce::AlongNormal
    } else {
        Bounce::Diffuse
    }
}

/// A metal reflects when the perturbed reflection still leaves the surface
/// (its dot product with the normal is positive), and absorbs otherwise.
pub fn metal_bounce(leaves_surface: bool) -> (r: Bounce)
    ensures
        r == (if leaves_surface {
            Bounce::Reflected
        } else {
            Bounce::Absorbed
        }),
{
    if leaves_surface {
        Bounce::Reflected
    } else {
        Bounce::Absorbed
    }
}

/// A dielectric never absorbs. It reflects where refraction is impossible
/// (total internal reflection) or where the random draw fell below the
/// reflectance, and refracts otherwise. `draw_below_reflectance` is only
/// consulted where refraction is possible.
pub fn dielectric_bounce(cannot_refract: bool, draw_below_reflectance: bool) -> (r: Bounce)
    ensures
        r.scatters(),
        r == (if cannot_refract || draw_below_reflectance {
            Bounce::Reflected
        } else {
            Bounce::Refracted
        }),
{
    if cannot_refract || draw_below_reflectance {
        Bounce::Reflected
    } else {
        Bounce::Refracted
    }
}

} // verus!
