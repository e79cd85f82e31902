use glam::DVec3;
use raytracer::double::{Double, Vec3, ZERO_BITS};
use raytracer::ray::{trace_range, HitRecord};
use raytracer::shapes::{face, first_root, front_face, has_roots, Root, TimeRange};

fn d(x: f64) -> Double {
    Double::from_bits(x.to_bits())
}

fn range(min: f64, max: f64) -> TimeRange {
    TimeRange { min: d(min), max: d(max) }
}

fn f(x: Double) -> f64 {
    f64::from_bits(x.to_bits())
}

fn vec3(v: DVec3) -> Vec3 {
    Vec3 { x: d(v.x), y: d(v.y), z: d(v.z) }
}

fn dvec3(v: Vec3) -> DVec3 {
    DVec3::new(f(v.x), f(v.y), f(v.z))
}

struct Crossing {
    time: f64,
    point: DVec3,
    normal: DVec3,
    front_face: bool,
}

// The arithmetic of a sphere crossing, with every decision left to the library.
fn cross(origin: DVec3, direction: DVec3, center: DVec3, radius: f64, within: &TimeRange) -> Option<Crossing> {
    let oc = origin - center;
    let a = direction.length_squared();
    let half_b = oc.dot(direction);
    let c = oc.length_squared() - radius * radius;
    let discriminant = half_b * half_b - a * c;
    if !has_roots(&d(a), &d(discriminant)) {
        return None;
    }
    let sqrtd = discriminant.sqrt();
    let near = d((-half_b - sqrtd) / a);
    let far = d((-half_b + sqrtd) / a);
    let time = first_root(within, &near, &far)?.time(near, far);
    let point = origin + f(time) * direction;
    let outward = (point - center) / radius;
    let hit = face(time, vec3(point), vec3(outward), &d(direction.dot(outward)));
    Some(Crossing {
        time: f(hit.time),
        point: dvec3(hit.point),
        normal: dvec3(hit.normal),
        front_face: hit.front_face,
    })
}

#[test]
fn zero_is_all_bits_clear() {
    assert_eq!(0.0f64.to_bits(), ZERO_BITS);
}

#[test]
fn range_leaves_out_its_lower_end() {
    let r = range(0.001, 10.0);
    assert!(!r.contains(&d(0.001)));
    assert!(r.contains(&d(0.0010000000000000002)));
    assert!(r.contains(&d(5.0)));
    assert!(r.contains(&d(10.0)));
    assert!(!r.contains(&d(10.000000000000002)));
    assert!(!r.contains(&d(0.0)));
    assert!(!r.contains(&d(-1.0)));
    assert!(!r.contains(&d(f64::NAN)));
}

#[test]
fn range_without_upper_end() {
    let r = range(0.001, f64::INFINITY);
    assert!(r.contains(&d(1e300)));
    assert!(r.contains(&d(f64::MAX)));
    assert!(!r.contains(&d(f64::NEG_INFINITY)));
}

#[test]
fn first_root_prefers_the_near_one() {
    let r = range(0.001, f64::INFINITY);
    assert_eq!(first_root(&r, &d(0.5), &d(1.5)), Some(Root::Near));
    assert_eq!(first_root(&r, &d(-0.5), &d(1.5)), Some(Root::Far));
    assert_eq!(first_root(&r, &d(0.001), &d(1.5)), Some(Root::Far));
    assert_eq!(first_root(&r, &d(-1.5), &d(-0.5)), None);
    assert_eq!(first_root(&r, &d(-1.5), &d(0.001)), None);
    assert_eq!(first_root(&r, &d(f64::NAN), &d(f64::NAN)), None);
    let short = range(0.001, 1.0);
    assert_eq!(first_root(&short, &d(0.0), &d(1.0)), Some(Root::Far));
    assert_eq!(first_root(&short, &d(0.0), &d(1.5)), None);
}

#[test]
fn root_names_its_time() {
    assert_eq!(Root::Near.time(d(0.5), d(1.5)), d(0.5));
    assert_eq!(Root::Far.time(d(0.5), d(1.5)), d(1.5));
}

#[test]
fn has_roots_wants_a_direction_and_a_discriminant() {
    assert!(has_roots(&d(1.0), &d(0.25)));
    assert!(has_roots(&d(1.0), &d(0.0)));
    assert!(has_roots(&d(1.0), &d(-0.0)));
    assert!(!has_roots(&d(1.0), &d(-0.25)));
    assert!(!has_roots(&d(0.0), &d(0.25)));
    assert!(!has_roots(&d(-0.0), &d(0.25)));
    assert!(has_roots(&d(1.0), &d(f64::NAN)));
}

#[test]
fn front_face_is_a_negative_dot_product() {
    assert!(front_face(&d(-1.0)));
    assert!(front_face(&d(-5e-324)));
    assert!(!front_face(&d(-0.0)));
    assert!(!front_face(&d(0.0)));
    assert!(!front_face(&d(1.0)));
    assert!(!front_face(&d(f64::NAN)));
}

#[test]
fn sphere_ahead_is_hit_on_its_front() {
    let hit = cross(
        DVec3::new(0.0, 0.0, 0.0),
        DVec3::new(0.0, 0.0, -1.0),
        DVec3::new(0.0, 0.0, -1.0),
        0.5,
        &trace_range(),
    );
    let hit = hit.unwrap();
    assert_eq!(hit.time, 0.5);
    assert_eq!(hit.point, DVec3::new(0.0, 0.0, -0.5));
    assert_eq!(hit.normal, DVec3::new(0.0, 0.0, 1.0));
    assert!(hit.front_face);
}

#[test]
fn hollow_sphere_is_hit_from_inside() {
    let solid = cross(
        DVec3::new(0.0, 0.0, 0.0),
        DVec3::new(0.0, 0.0, -1.0),
        DVec3::new(0.0, 0.0, -1.0),
        0.5,
        &trace_range(),
    )
    .unwrap();
    let hollow = cross(
        DVec3::new(0.0, 0.0, 0.0),
        DVec3::new(0.0, 0.0, -1.0),
        DVec3::new(0.0, 0.0, -1.0),
        -0.5,
        &trace_range(),
    )
    .unwrap();
    assert_eq!(hollow.time, solid.time);
    assert_eq!(hollow.point, solid.point);
    // The outward normal is the negation of the solid sphere's, so the ray
    // meets the back of the surface; the normal kept is turned against the
    // ray all the same.
    let outward_hollow = (hollow.point - DVec3::new(0.0, 0.0, -1.0)) / -0.5;
    let outward_solid = (solid.point - DVec3::new(0.0, 0.0, -1.0)) / 0.5;
    assert_eq!(outward_hollow, -outward_solid);
    assert!(solid.front_face);
    assert!(!hollow.front_face);
    assert_eq!(hollow.normal, DVec3::new(0.0, 0.0, 1.0));
}

#[test]
fn ray_from_inside_takes_the_far_root() {
    let hit = cross(
        DVec3::new(0.0, 0.0, -1.0),
        DVec3::new(0.0, 0.0, -1.0),
        DVec3::new(0.0, 0.0, -1.0),
        0.5,
        &trace_range(),
    )
    .unwrap();
    assert_eq!(hit.time, 0.5);
    assert!(!hit.front_face);
    assert_eq!(hit.normal, DVec3::new(0.0, 0.0, 1.0));
}

#[test]
fn ray_past_the_sphere_misses() {
    let miss = cross(
        DVec3::new(0.0, 2.0, 0.0),
        DVec3::new(0.0, 0.0, -1.0),
        DVec3::new(0.0, 0.0, -1.0),
        0.5,
        &trace_range(),
    );
    assert!(miss.is_none());
    let behind = cross(
        DVec3::new(0.0, 0.0, -3.0),
        DVec3::new(0.0, 0.0, -1.0),
        DVec3::new(0.0, 0.0, -1.0),
        0.5,
        &trace_range(),
    );
    assert!(behind.is_none());
    let still = cross(
        DVec3::new(0.0, 0.0, 0.0),
        DVec3::new(0.0, 0.0, 0.0),
        DVec3::new(0.0, 0.0, -1.0),
        0.5,
        &trace_range(),
    );
    assert!(still.is_none());
}

#[test]
fn record_keeps_the_normal_against_the_ray() {
    let point = vec3(DVec3::new(0.0, 0.0, -0.5));
    let outward = vec3(DVec3::new(0.0, 0.0, 1.0));
    let inward = vec3(DVec3::new(-0.0, -0.0, -1.0));
    assert_eq!(
        face(d(0.5), point, outward, &d(-1.0)),
        HitRecord { point, normal: outward, time: d(0.5), front_face: true }
    );
    assert_eq!(
        face(d(0.5), point, outward, &d(1.0)),
        HitRecord { point, normal: inward, time: d(0.5), front_face: false }
    );
    assert_eq!(
        face(d(0.5), point, outward, &d(0.0)),
        HitRecord { point, normal: inward, time: d(0.5), front_face: false }
    );
}

#[test]
fn negation_is_the_hardware_negation() {
    for x in [0.0, -0.0, 1.5, -2.25, 5e-324, f64::MAX, f64::INFINITY, f64::NEG_INFINITY, f64::NAN] {
        assert_eq!(d(x).neg().to_bits(), (-x).to_bits());
    }
    let v = DVec3::new(1.0, -0.0, f64::INFINITY);
    assert_eq!(vec3(v).neg(), vec3(-v));
}
