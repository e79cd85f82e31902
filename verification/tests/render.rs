use glam::DVec3;
use raytracer::camera::{pinhole, Frame, Setup};
use raytracer::double::{Double, Vec3};
use raytracer::ppm_renderer::{channel, header, image, pixel_line, Rgb};
use raytracer::ray::{trace, End, HitRecord, MaterialCalc, Ray, RayHittable};
use raytracer::sampling::clamp_channel;
use raytracer::shapes::{face, first_root, has_roots, TimeRange};

fn d(x: f64) -> Double {
    Double::from_bits(x.to_bits())
}

fn f(x: Double) -> f64 {
    f64::from_bits(x.to_bits())
}

fn vec3(v: DVec3) -> Vec3 {
    Vec3 { x: d(v.x), y: d(v.y), z: d(v.z) }
}

fn dvec3(v: Vec3) -> DVec3 {
    DVec3::new(f(v.x), f(v.y), f(v.z))
}

// A camera at the origin that looks down the negative z axis, without jitter.
struct Pinhole {
    frame: Frame,
    first_pixel: DVec3,
    delta_u: DVec3,
    delta_v: DVec3,
}

fn camera(width: u16, aspect_ratio: f64) -> Pinhole {
    let look_from = DVec3::ZERO;
    let look_at = -DVec3::Z;
    let up = DVec3::Y;
    let focus = 1.0;
    let fov = 90.0f64;
    let view = look_from - look_at;
    let w = view.normalize();
    let side = up.cross(w);
    let setup = Setup {
        width,
        fov: d(fov),
        aspect_ratio: d(aspect_ratio),
        focus_distance: d(focus),
        view_length: d(view.length()),
        side_length: d(side.length()),
    };
    let frame = Frame::new(&setup, (width as f64 / aspect_ratio).round() as u16).unwrap();
    let u = side.normalize();
    let v = w.cross(u);
    let viewport_height = 2.0 * (fov.to_radians() / 2.0).tan() * focus;
    let viewport_width = viewport_height * (frame.width as f64 / frame.height as f64);
    let viewport_u = viewport_width * u;
    let viewport_v = viewport_height * -v;
    let delta_u = viewport_u / frame.width as f64;
    let delta_v = viewport_v / frame.height as f64;
    let upper_left = look_from - focus * w - viewport_u / 2.0 - viewport_v / 2.0;
    Pinhole { frame, first_pixel: upper_left + 0.5 * (delta_u + delta_v), delta_u, delta_v }
}

impl Pinhole {
    fn ray(&self, column: u16, row: u16) -> Ray {
        assert!(pinhole(&d(0.0)));
        let through = self.first_pixel + column as f64 * self.delta_u + row as f64 * self.delta_v;
        Ray { origin: vec3(DVec3::ZERO), direction: vec3(through) }
    }
}

fn sky(direction: DVec3) -> DVec3 {
    let a = 0.5 * (direction.normalize_or_zero().y + 1.0);
    (1.0 - a) * DVec3::ONE + a * DVec3::new(0.5, 0.7, 1.0)
}

fn encode(mean: DVec3) -> Rgb {
    let level = |c: f64| channel((f(clamp_channel(&d(c))).sqrt() * 255.999).floor() as i64);
    Rgb { red: level(mean.x), green: level(mean.y), blue: level(mean.z) }
}

// A matte sphere that scatters straight back along its normal.
struct Matte {
    center: DVec3,
    radius: f64,
    albedo: DVec3,
}

impl RayHittable for Matte {
    fn hit(&self, ray: &Ray, range: &TimeRange) -> Option<HitRecord> {
        let origin = dvec3(ray.origin);
        let direction = dvec3(ray.direction);
        let oc = origin - self.center;
        let a = direction.length_squared();
        let half_b = oc.dot(direction);
        let c = oc.length_squared() - self.radius * self.radius;
        let discriminant = half_b * half_b - a * c;
        if !has_roots(&d(a), &d(discriminant)) {
            return None;
        }
        let sqrtd = discriminant.sqrt();
        let near = d((-half_b - sqrtd) / a);
        let far = d((-half_b + sqrtd) / a);
        let time = first_root(range, &near, &far)?.time(near, far);
        let point = origin + f(time) * direction;
        let outward = (point - self.center) / self.radius;
        Some(face(time, vec3(point), vec3(outward), &d(direction.dot(outward))))
    }

    fn scatter(&self, _ray: &Ray, hit: &HitRecord) -> Option<MaterialCalc> {
        Some(MaterialCalc {
            attenuation: vec3(self.albedo),
            rebounce: Ray { origin: hit.point, direction: hit.normal },
        })
    }
}

// Renders one sample to a pixel and writes the picture.
fn render<W: RayHittable>(camera: &Pinhole, world: &Vec<W>, max_bounces: u8) -> Vec<u8> {
    let mut pixels = Vec::new();
    let mut k = 0;
    while let Some(slot) = camera.frame.slot(1, k) {
        let first = camera.ray(slot.column, slot.row);
        let path = trace(&first, max_bounces, world);
        let last = path.bounces.last().map_or(first, |calc| calc.rebounce);
        let mut colour = match path.end {
            End::Sky => sky(dvec3(last.direction)),
            End::Black => DVec3::ZERO,
        };
        for calc in path.bounces.iter().rev() {
            colour = dvec3(calc.attenuation) * colour;
        }
        pixels.push(encode(colour));
        k += 1;
    }
    image(camera.frame.width, camera.frame.height, &pixels).unwrap()
}

#[test]
fn empty_scene_renders_the_gradient() {
    let camera = camera(8, 2.0);
    assert_eq!(camera.frame, Frame { width: 8, height: 4 });
    let world: Vec<Matte> = Vec::new();
    let written = render(&camera, &world, 50);
    let mut expected = header(8, 4);
    for row in 0..4u16 {
        for column in 0..8u16 {
            let direction = camera.first_pixel
                + column as f64 * camera.delta_u
                + row as f64 * camera.delta_v;
            expected.extend(pixel_line(&encode(sky(direction))));
        }
    }
    assert_eq!(written, expected);
}

#[test]
fn gradient_runs_from_white_below_to_blue_above() {
    // Straight ahead the background is half white, half sky blue.
    let ahead = encode(sky(-DVec3::Z));
    assert_eq!(ahead, Rgb { red: 221, green: 236, blue: 255 });
    let up = encode(sky(DVec3::Y));
    assert_eq!(up, Rgb { red: 181, green: 214, blue: 255 });
    let down = encode(sky(-DVec3::Y));
    assert_eq!(down, Rgb { red: 255, green: 255, blue: 255 });
}

#[test]
fn small_picture_is_written_in_full() {
    let camera = camera(2, 2.0);
    assert_eq!(camera.frame, Frame { width: 2, height: 1 });
    let world: Vec<Matte> = Vec::new();
    let written = String::from_utf8(render(&camera, &world, 50)).unwrap();
    let lines: Vec<&str> = written.lines().collect();
    assert_eq!(lines.len(), 5);
    assert_eq!(lines[1], "2 1");
    assert_eq!(lines[2], "255");
    assert_eq!(lines[3], lines[4]);
    assert_eq!(lines[3], "221 236 255");
}

#[test]
fn sphere_in_view_darkens_the_middle() {
    let camera = camera(5, 1.0);
    let world = vec![Matte { center: DVec3::new(0.0, 0.0, -2.0), radius: 0.5, albedo: DVec3::splat(0.25) }];
    let lit = String::from_utf8(render(&camera, &world, 50)).unwrap();
    let lines: Vec<&str> = lit.lines().collect();
    assert_eq!(lines.len(), 3 + 25);
    // The ray through the middle pixel hits the sphere head on and is sent
    // back to where it came from: a quarter of the light from straight behind.
    let behind = DVec3::splat(0.25) * sky(DVec3::Z);
    assert_eq!(String::from_utf8(pixel_line(&encode(behind))).unwrap().trim_end(), lines[3 + 12]);
    // The corner pixels see the sky.
    assert_eq!(lines[3], String::from_utf8(pixel_line(&encode(sky(camera.first_pixel)))).unwrap().trim_end());
    // With no bounce to spend, what hits the sphere is black.
    let spent = String::from_utf8(render(&camera, &world, 1)).unwrap();
    let lines: Vec<&str> = spent.lines().collect();
    assert_eq!(lines[3 + 12], "0 0 0");
    assert_eq!(lines[3], String::from_utf8(pixel_line(&encode(sky(camera.first_pixel)))).unwrap().trim_end());
}
