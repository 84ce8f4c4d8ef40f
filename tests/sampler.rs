use raytracer::render::sampler::{sample_ray, Bounce, LightTransport, Sampler};
use raytracer::scenes::RenderSettings;
use raytracer::utils::ray::{Normalize, Ray};

/// How many surfaces a ray has met so far.
struct Hop(u32);

impl Normalize for Hop {
    fn unit_spec(&self) -> Hop {
        self.unit()
    }

    fn unit(&self) -> Hop {
        Hop(self.0)
    }
}

/// A scene whose surfaces scatter every ray `scatters` times with weight
/// `weight` before it escapes to an environment of radiance `sky`.
struct Corridor {
    scatters: u32,
    weight: f64,
    sky: f64,
}

impl LightTransport for Corridor {
    type Vector = Hop;
    type Color = f64;
    type Rng = u32;

    fn camera_ray_spec(&self, rng: u32, pos: (u32, u32), img_size: (u32, u32)) -> (Ray<Hop>, u32) {
        let mut g = rng;
        let r = self.camera_ray(&mut g, pos, img_size);
        (r, g)
    }

    fn bounce_spec(&self, rng: u32, ray: Ray<Hop>) -> (Bounce<Hop, f64>, u32) {
        let mut g = rng;
        let b = self.bounce(&mut g, &ray);
        (b, g)
    }

    fn black_spec(&self) -> f64 {
        self.black()
    }

    fn white_spec(&self) -> f64 {
        self.white()
    }

    fn modulate_spec(&self, a: f64, b: f64) -> f64 {
        self.modulate(&a, &b)
    }

    fn accumulate_spec(&self, a: f64, b: f64) -> f64 {
        self.accumulate(&a, &b)
    }

    fn average_spec(&self, sum: f64, count: u32) -> f64 {
        self.average(&sum, count)
    }

    fn camera_ray(&self, rng: &mut u32, _pos: (u32, u32), _img_size: (u32, u32)) -> Ray<Hop> {
        *rng += 1;
        Ray::new(Hop(0), Hop(0))
    }

    fn bounce(&self, _rng: &mut u32, ray: &Ray<Hop>) -> Bounce<Hop, f64> {
        let hops = ray.direction.0;
        if hops < self.scatters {
            Bounce::Scattered { ray: Ray::new(Hop(0), Hop(hops + 1)), attenuation: self.weight }
        } else {
            Bounce::Escaped { radiance: self.sky }
        }
    }

    fn black(&self) -> f64 {
        0.0
    }

    fn white(&self) -> f64 {
        1.0
    }

    fn modulate(&self, a: &f64, b: &f64) -> f64 {
        a * b
    }

    fn accumulate(&self, a: &f64, b: &f64) -> f64 {
        a + b
    }

    fn average(&self, sum: &f64, count: u32) -> f64 {
        sum / count as f64
    }
}

fn settings(max_depth: u32) -> RenderSettings {
    RenderSettings { img_size: (2, 2), samples_per_pixel: 4, max_depth, threads: 1 }
}

#[test]
fn escaping_ray_sees_sky() {
    let scene = Corridor { scatters: 0, weight: 0.5, sky: 0.8 };
    let mut rng = 0u32;
    assert_eq!(sample_ray(&scene, &mut rng, Ray::new(Hop(0), Hop(0)), 5), (0.8, 1));
}

#[test]
fn attenuation_multiplies_along_path() {
    let scene = Corridor { scatters: 2, weight: 0.5, sky: 1.0 };
    let mut rng = 0u32;
    assert_eq!(sample_ray(&scene, &mut rng, Ray::new(Hop(0), Hop(0)), 5), (0.25, 3));
}

#[test]
fn facing_mirrors_stop_at_max_depth() {
    let scene = Corridor { scatters: u32::MAX, weight: 1.0, sky: 1.0 };
    let mut rng = 0u32;
    assert_eq!(sample_ray(&scene, &mut rng, Ray::new(Hop(0), Hop(0)), 16), (0.0, 16));
}

#[test]
fn zero_depth_is_black() {
    let scene = Corridor { scatters: 0, weight: 1.0, sky: 1.0 };
    let mut rng = 0u32;
    assert_eq!(sample_ray(&scene, &mut rng, Ray::new(Hop(0), Hop(0)), 0), (0.0, 0));
}

#[test]
fn sample_averages_once() {
    let scene = Corridor { scatters: 1, weight: 0.5, sky: 1.0 };
    let sampler = Sampler::new(scene, settings(8));
    let mut rng = 0u32;
    let (c, bounces) = sampler.sample(&mut rng, (0, 0), 4);
    assert_eq!(c, 0.5);
    assert_eq!(bounces, 8);
    assert_eq!(rng, 4);
}

#[test]
fn sample_respects_depth_budget() {
    let scene = Corridor { scatters: u32::MAX, weight: 1.0, sky: 1.0 };
    let sampler = Sampler::new(scene, settings(3));
    let mut rng = 0u32;
    let (c, bounces) = sampler.sample(&mut rng, (1, 1), 5);
    assert_eq!(c, 0.0);
    assert_eq!(bounces, 15);
}

#[test]
fn same_state_gives_same_estimate() {
    let sampler = Sampler::new(Corridor { scatters: 2, weight: 0.3, sky: 0.9 }, settings(6));
    let mut a = 7u32;
    let mut b = 7u32;
    let ra = sampler.sample(&mut a, (1, 0), 3);
    let rb = sampler.sample(&mut b, (1, 0), 3);
    assert_eq!(ra.0.to_bits(), rb.0.to_bits());
    assert_eq!(ra.1, rb.1);
    assert_eq!(a, b);
}
