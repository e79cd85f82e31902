//! Which crossing of a sphere counts as the hit.
//!
//! A ray meets a sphere where a quadratic in the ray's parameter vanishes. The
//! arithmetic gives the leading coefficient, the discriminant and the two
//! roots; what is decided here is whether there is a crossing at all, which
//! root is taken, and from which side the surface was met.
use vstd::prelude::*;
use crate::double::{Double, Vec3, ZERO_BITS};
use crate::ray::HitRecord;

verus! {

/// The stretch of a ray on which a crossing counts: after `min`, up to and
/// including `max`.
#[derive(Clone, Copy, Debug, PartialEq, Eq, Structural)]
pub struct TimeRange {
    pub min: Double,
    pub max: Double,
}

/// One of the two roots of the quadratic, in ascending order.
#[derive(Clone, Copy, Debug, PartialEq, Eq, Structural)]
pub enum Root {
    /// The lesser root, where the ray enters the sphere.
    Near,
    /// The greater root, where the ray leaves the sphere.
    Far,
}

impl TimeRange {
    /// `min < t <= max`: the lower end is left out, so that a ray leaving a
    /// surface does not hit it again where it starts.
    pub open spec fn admits(self, t: Double) -> bool {
        self.min.below(t) && t.at_most(self.max)
    }

    /// Whether a crossing at the time `t` counts.
    pub fn contains(&self, t: &Double) -> (r: bool)
        ensures
            r == self.admits(*t),
    {
        self.min.lt(t) && t.le(&self.max)
    }
}

impl Root {
    /// The root that this names, of the two.
    pub open spec fn pick(self, near: Double, far: Double) -> Double {
        match self {
            Root::Near => near,
            Root::Far => far,
        }
    }

    /// The root that this names, of the two.
    pub fn time(&self, near: Double, far: Double) -> (t: Double)
        ensures
            t == self.pick(near, far),
    {
        match self {
            Root::Near => near,
            Root::Far => far,
        }
    }
}

/// A ray with a direction crosses the sphere's surface unless the
/// discriminant is negative.
pub open spec fn crosses(leading: Double, discriminant: Double) -> bool {
    !leading.same(Double { bits: ZERO_BITS }) && !discriminant.below(Double { bits: ZERO_BITS })
}

/// The first root, in ascending order, that the range admits.
pub open spec fn first_admitted(range: TimeRange, near: Double, far: Double) -> Option<Root> {
    if range.admits(near) {
        Some(Root::Near)
    } else if range.admits(far) {
        Some(Root::Far)
    } else {
        None
    }
}

/// Whether the quadratic has roots to look at: the leading coefficient, the
/// squared length of the ray's direction, is not zero, and the discriminant
/// is not negative.
pub fn has_roots(leading: &Double, discriminant: &Double) -> (r: bool)
    ensures
        r == crosses(*leading, *discriminant),
{
    let zero = Double::from_bits(ZERO_BITS);
    !leading.equals(&zero) && !discriminant.lt(&zero)
}

/// Chooses the root at which the ray hits: the near one if the range admits
/// it, else the far one if the range admits that, else none.
pub fn first_root(range: &TimeRange, near: &Double, far: &Double) -> (r: Option<Root>)
    ensures
        r == first_admitted(*range, *near, *far),
{
    if range.contains(near) {
        Some(Root::Near)
    } else if range.contains(far) {
        Some(Root::Far)
    } else {
        None
    }
}

/// Whether the ray met the surface from outside: its direction and the
/// outward normal point against each other, so their dot product is
/// negative.
pub fn front_face(facing: &Double) -> (r: bool)
    ensures
        r == facing.below(Double { bits: ZERO_BITS }),
{
    facing.lt(&Double::from_bits(ZERO_BITS))
}

/// The record of a crossing at `point`, where the surface's outward normal
/// is `outward` and `facing` is its dot product with the ray's direction.
/// The normal kept is turned against the ray: the outward one where the
/// surface was met from outside, else its negation.
pub open spec fn faced(time: Double, point: Vec3, outward: Vec3, facing: Double) -> HitRecord {
    let front = facing.below(Double { bits: ZERO_BITS });
    HitRecord {
        point,
        normal: if front {
            outward
        } else {
            outward.negated()
        },
        time,
        front_face: front,
    }
}

/// Makes the record of a crossing, with its normal turned against the ray.
pub fn face(time: Double, point: Vec3, outward: Vec3, facing: &Double) -> (hit: HitRecord)
    ensures
        hit == faced(time, point, outward, *facing),
{
    let front = front_face(facing);
    HitRecord {
        point,
        normal: if front {
            outward
        } else {
            outward.neg()
        },
        time,
        front_face: front,
    }
}

/// A surface turned inside out, as a sphere of negative radius is, has its
/// outward normal negated, and with it the dot product. Where the ray is
/// not along the surface, the record keeps the same normal and tells the
/// other side.
pub proof fn law_turned_surface_keeps_its_normal(
    time: Double,
    point: Vec3,
    outward: Vec3,
    facing: Double,
)
    requires
        !facing.is_nan(),
        facing.rank() != 0,
    ensures
        faced(time, point, outward.negated(), facing.negated()).normal == faced(
            time,
            point,
            outward,
            facing,
        ).normal,
        faced(time, point, outward.negated(), facing.negated()).front_face != faced(
            time,
            point,
            outward,
            facing,
        ).front_face,
{
}

/// The root chosen is the nearest that counts: the range admits it, and no
/// root that the range admits lies before it. Where none is chosen the range
/// admits neither root.
pub proof fn law_first_root_is_nearest(range: TimeRange, near: Double, far: Double)
    requires
        near.at_most(far),
    ensures
        match first_admitted(range, near, far) {
            Some(root) => {
                &&& range.admits(root.pick(near, far))
                &&& range.admits(near) ==> root.pick(near, far).at_most(near)
                &&& range.admits(far) ==> root.pick(near, far).at_most(far)
            },
            None => !range.admits(near) && !range.admits(far),
        },
{
}

/// A root that equals the lower end of the range is never taken.
pub proof fn law_lower_end_is_left_out(range: TimeRange, near: Double, far: Double)
    requires
        near.same(range.min),
        far.same(range.min),
    ensures
        first_admitted(range, near, far) is None,
{
}

} // verus!
