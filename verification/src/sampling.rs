//! The rules of drawing samples: which random point is kept, and how far an
//! averaged colour may go.
use vstd::prelude::*;
use crate::double::{Double, Vec3, ONE_BITS, ZERO_BITS};

verus! {

/// The encoding of 0.99999999999, the largest value of a channel: just
/// under one, so that the square root taken of it afterwards stays under
/// one as well.
pub const CEILING_BITS: u64 = 0x3FEF_FFFF_FFFE_A028;

/// A channel held between zero and the ceiling. What is not above zero,
/// and what is no number, becomes zero; what is not below the ceiling
/// becomes the ceiling.
pub open spec fn clamped(channel: Double) -> Double {
    if !(Double { bits: ZERO_BITS }).below(channel) {
        Double { bits: ZERO_BITS }
    } else if channel.below(Double { bits: CEILING_BITS }) {
        channel
    } else {
        Double { bits: CEILING_BITS }
    }
}

/// Whether a point drawn from the cube, or the square, around the origin is
/// kept: its squared length is below one, so it lies inside the unit ball,
/// or the unit disk.
pub fn keeps(length_squared: &Double) -> (r: bool)
    ensures
        r == length_squared.below(Double { bits: ONE_BITS }),
{
    length_squared.lt(&Double::from_bits(ONE_BITS))
}

/// Clamps one channel of an averaged colour.
pub fn clamp_channel(channel: &Double) -> (r: Double)
    ensures
        r == clamped(*channel),
{
    let zero = Double::from_bits(ZERO_BITS);
    let ceiling = Double::from_bits(CEILING_BITS);
    if !zero.lt(channel) {
        zero
    } else if channel.lt(&ceiling) {
        *channel
    } else {
        ceiling
    }
}

/// Clamps an averaged colour, channel by channel.
pub fn clamp(colour: &Vec3) -> (r: Vec3)
    ensures
        r.x == clamped(colour.x),
        r.y == clamped(colour.y),
        r.z == clamped(colour.z),
{
    Vec3 { x: clamp_channel(&colour.x), y: clamp_channel(&colour.y), z: clamp_channel(&colour.z) }
}

/// A clamped channel is a number from zero to the ceiling; a channel that
/// lay between the two is left as it is, and clamping twice changes nothing.
pub proof fn law_clamped_is_in_range(channel: Double)
    ensures
        !clamped(channel).is_nan(),
        (Double { bits: ZERO_BITS }).at_most(clamped(channel)),
        clamped(channel).at_most(Double { bits: CEILING_BITS }),
        (Double { bits: ZERO_BITS }).below(channel) && channel.below(Double { bits: CEILING_BITS })
            ==> clamped(channel) == channel,
        clamped(clamped(channel)) == clamped(channel),
{
}

} // verus!
