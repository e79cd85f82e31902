//! What a material makes of a ray that hit it.
//!
//! The directions in which light may go on are arithmetic and chance; which
//! of them is taken, whether the ray goes on at all, and what the material
//! lets through is decided here.
use vstd::prelude::*;
use crate::double::{Double, Vec3, ONE_BITS};
use crate::ray::{HitRecord, MaterialCalc, Ray};

verus! {

/// The encoding of 1e-8: below this magnitude a component counts as zero.
pub const NEAR_ZERO_BITS: u64 = 0x3E45_798E_E230_8C3A;

/// The encoding of -5e-6: how far below the surface a fuzzed reflection may
/// point and still count as grazing.
pub const GRAZING_BITS: u64 = 0xBED4_F8B5_88E3_68F1;

/// A material at a hit, with what was computed of the ray for it.
#[derive(Clone, Copy, Debug, PartialEq, Eq, Structural)]
pub enum Probe {
    /// A diffuse surface of the colour `albedo`. `diffuse` is the surface
    /// normal plus a random unit vector.
    Lambert { albedo: Vec3, diffuse: Vec3 },
    /// A metal of the colour `albedo`. `fuzzed` is the mirror reflection of
    /// the ray's unit direction plus the fuzz times a random unit vector,
    /// `facing` its dot product with the surface normal.
    Metal { albedo: Vec3, fuzzed: Vec3, facing: Double },
    /// A dielectric. `bend` is the refraction ratio times the sine of the
    /// angle of incidence, `reflected` the mirror reflection of the ray's
    /// unit direction, `refracted` its refraction by Snell's law.
    Dielectric { bend: Double, reflected: Vec3, refracted: Vec3 },
}

/// Every component has a magnitude below 1e-8.
pub open spec fn negligible(direction: Vec3) -> bool {
    let limit = Double { bits: NEAR_ZERO_BITS };
    &&& Double { bits: direction.x.magnitude_bits() }.below(limit)
    &&& Double { bits: direction.y.magnitude_bits() }.below(limit)
    &&& Double { bits: direction.z.magnitude_bits() }.below(limit)
}

/// The colour that lets all light through.
pub open spec fn white() -> Vec3 {
    Vec3 { x: Double { bits: ONE_BITS }, y: Double { bits: ONE_BITS }, z: Double { bits: ONE_BITS } }
}

/// The rule of each material. A diffuse surface always scatters, along the
/// normal alone where the random vector cancelled it, and lets its albedo
/// through. A metal scatters along the fuzzed reflection and lets its albedo
/// through, unless that direction points into the surface by more than the
/// grazing tolerance: then the ray is absorbed. A dielectric always
/// scatters, by reflection where the bend exceeds one and by refraction
/// otherwise, and lets all light through. The scattered ray starts where
/// the surface was hit.
pub open spec fn scattering(probe: Probe, hit: HitRecord) -> Option<MaterialCalc> {
    match probe {
        Probe::Lambert { albedo, diffuse } => Some(
            MaterialCalc {
                attenuation: albedo,
                rebounce: Ray {
                    origin: hit.point,
                    direction: if negligible(diffuse) {
                        hit.normal
                    } else {
                        diffuse
                    },
                },
            },
        ),
        Probe::Metal { albedo, fuzzed, facing } => if (Double { bits: GRAZING_BITS }).at_most(
            facing,
        ) {
            Some(
                MaterialCalc { attenuation: albedo, rebounce: Ray { origin: hit.point, direction: fuzzed } },
            )
        } else {
            None
        },
        Probe::Dielectric { bend, reflected, refracted } => Some(
            MaterialCalc {
                attenuation: white(),
                rebounce: Ray {
                    origin: hit.point,
                    direction: if (Double { bits: ONE_BITS }).below(bend) {
                        reflected
                    } else {
                        refracted
                    },
                },
            },
        ),
    }
}

/// Whether a direction is too close to the zero vector to be normalised.
pub fn near_zero(direction: &Vec3) -> (r: bool)
    ensures
        r == negligible(*direction),
{
    let limit = Double::from_bits(NEAR_ZERO_BITS);
    direction.x.abs().lt(&limit) && direction.y.abs().lt(&limit) && direction.z.abs().lt(&limit)
}

/// Decides what the material makes of the ray: `None` where it is absorbed,
/// else the attenuation and the scattered ray.
pub fn on_ray_hit(probe: &Probe, hit: &HitRecord) -> (r: Option<MaterialCalc>)
    ensures
        r == scattering(*probe, *hit),
{
    match probe {
        Probe::Lambert { albedo, diffuse } => {
            let direction = if near_zero(diffuse) {
                hit.normal
            } else {
                *diffuse
            };
            Some(MaterialCalc { attenuation: *albedo, rebounce: Ray { origin: hit.point, direction } })
        },
        Probe::Metal { albedo, fuzzed, facing } => {
            if Double::from_bits(GRAZING_BITS).le(facing) {
                Some(
                    MaterialCalc {
                        attenuation: *albedo,
                        rebounce: Ray { origin: hit.point, direction: *fuzzed },
                    },
                )
            } else {
                None
            }
        },
        Probe::Dielectric { bend, reflected, refracted } => {
            let one = Double::from_bits(ONE_BITS);
            let direction = if one.lt(bend) {
                *reflected
            } else {
                *refracted
            };
            Some(
                MaterialCalc {
                    attenuation: Vec3 { x: one, y: one, z: one },
                    rebounce: Ray { origin: hit.point, direction },
                },
            )
        },
    }
}

/// A diffuse surface scatters every ray that hits it, and so does a
/// dielectric: only a metal absorbs.
pub proof fn law_only_metal_absorbs(probe: Probe, hit: HitRecord)
    ensures
        probe is Lambert ==> scattering(probe, hit) is Some,
        probe is Dielectric ==> scattering(probe, hit) is Some,
        scattering(probe, hit) is None ==> probe is Metal,
{
}

/// A metal whose fuzzed reflection leaves the surface, as the mirror
/// reflection itself does, is never absorbed, and the scattered ray runs
/// along that direction as it was given: with no fuzz, along the mirror
/// reflection exactly.
pub proof fn law_leaving_reflection_scatters(albedo: Vec3, fuzzed: Vec3, facing: Double, hit: HitRecord)
    requires
        !facing.is_nan(),
        facing.rank() >= 0,
    ensures
        scattering(Probe::Metal { albedo, fuzzed, facing }, hit) == Some(
            MaterialCalc { attenuation: albedo, rebounce: Ray { origin: hit.point, direction: fuzzed } },
        ),
{
}

/// A dielectric refracts whenever the bend is at most one: a glass of index
/// one, where the bend is a sine, never reflects.
pub proof fn law_small_bend_refracts(bend: Double, reflected: Vec3, refracted: Vec3, hit: HitRecord)
    requires
        bend.at_most(Double { bits: ONE_BITS }),
    ensures
        scattering(Probe::Dielectric { bend, reflected, refracted }, hit) matches Some(calc)
            && calc.rebounce.direction == refracted,
{
}

/// A scattered ray starts where the surface was hit.
pub proof fn law_scattered_ray_starts_at_the_hit(probe: Probe, hit: HitRecord)
    ensures
        scattering(probe, hit) matches Some(calc) ==> calc.rebounce.origin == hit.point,
{
}

} // verus!
