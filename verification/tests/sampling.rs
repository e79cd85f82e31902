use raytracer::double::{Double, Vec3};
use raytracer::sampling::{clamp as clamp_colour, clamp_channel, keeps, CEILING_BITS};

fn d(x: f64) -> Double {
    Double::from_bits(x.to_bits())
}

fn clamp(x: f64) -> f64 {
    f64::from_bits(clamp_channel(&d(x)).to_bits())
}

#[test]
fn ceiling_is_just_under_one() {
    assert_eq!(0.99999999999f64.to_bits(), CEILING_BITS);
    assert!(0.99999999999f64.sqrt() * 255.999 < 256.0);
}

#[test]
fn point_inside_the_unit_ball_is_kept() {
    assert!(keeps(&d(0.0)));
    assert!(keeps(&d(0.25)));
    assert!(keeps(&d(0.9999999999999999)));
    assert!(!keeps(&d(1.0)));
    assert!(!keeps(&d(1.0000000000000002)));
    assert!(!keeps(&d(3.0)));
    assert!(!keeps(&d(f64::NAN)));
}

#[test]
fn clamp_holds_a_channel_in_range() {
    assert_eq!(clamp(0.25), 0.25);
    assert_eq!(clamp(5e-324), 5e-324);
    assert_eq!(clamp(0.9999999999), 0.9999999999);
    assert_eq!(clamp(0.99999999999), 0.99999999999);
    assert_eq!(clamp(1.0), 0.99999999999);
    assert_eq!(clamp(17.0), 0.99999999999);
    assert_eq!(clamp(f64::INFINITY), 0.99999999999);
    assert_eq!(clamp(0.0), 0.0);
    assert_eq!(clamp(-3.0), 0.0);
    assert_eq!(clamp(f64::NEG_INFINITY), 0.0);
}

#[test]
fn clamp_turns_what_is_not_positive_into_plain_zero() {
    assert_eq!(clamp_channel(&d(-0.0)).to_bits(), 0);
    assert_eq!(clamp_channel(&d(f64::NAN)).to_bits(), 0);
    assert_eq!(clamp_channel(&d(-1.0)).to_bits(), 0);
}

#[test]
fn clamp_agrees_with_the_vector_library() {
    let low = glam::DVec3::ZERO;
    let high = glam::DVec3::splat(0.99999999999);
    for x in [-2.0, -0.0, 0.0, 1e-300, 0.3, 0.7, 0.99999999999, 1.0, 2.0, f64::INFINITY, f64::NAN] {
        let by_vector = glam::DVec3::splat(x).clamp(low, high).x;
        assert_eq!(clamp(x).to_bits(), by_vector.to_bits());
    }
}

#[test]
fn clamp_holds_a_colour_channel_by_channel() {
    let colour = Vec3 { x: d(-0.5), y: d(0.5), z: d(1.5) };
    let held = clamp_colour(&colour);
    assert_eq!(held, Vec3 { x: d(0.0), y: d(0.5), z: d(0.99999999999) });
    let by_vector = glam::DVec3::new(-0.5, 0.5, 1.5).clamp(glam::DVec3::ZERO, glam::DVec3::splat(0.99999999999));
    assert_eq!(by_vector, glam::DVec3::new(0.0, 0.5, 0.99999999999));
}
