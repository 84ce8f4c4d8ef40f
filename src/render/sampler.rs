use vstd::prelude::*;

use crate::scenes::RenderSettings;
use crate::utils::ray::{Normalize, Ray};

verus! {

/// What happens to a ray sent into the scene.
pub enum Bounce<V, C> {
    /// It hit a surface whose material scattered it into `ray` and weighted
    /// what comes back along it by `attenuation`.
    Scattered { ray: Ray<V>, attenuation: C },
    /// It left the scene; `radiance` is what the environment sends back along it.
    Escaped { radiance: C },
}

/// The geometric and radiometric side of a scene, as the integrator consults
/// it. The scene itself is only read; all randomness comes from the
/// caller-owned source `Rng`, so that each worker can hold its own stream.
/// Every method's result, and the state the source is left in, are a function
/// of the scene, the arguments and the state the source was in.
pub trait LightTransport {
    type Vector: Normalize;

    type Color;

    type Rng;

    /// The camera ray for `pos` and the random state after drawing its jitter.
    spec fn camera_ray_spec(&self, rng: Self::Rng, pos: (u32, u32), img_size: (u32, u32)) -> (
        Ray<Self::Vector>,
        Self::Rng,
    );

    /// What the scene does to `ray`, and the random state after scattering.
    spec fn bounce_spec(&self, rng: Self::Rng, ray: Ray<Self::Vector>) -> (
        Bounce<Self::Vector, Self::Color>,
        Self::Rng,
    );

    spec fn black_spec(&self) -> Self::Color;

    spec fn white_spec(&self) -> Self::Color;

    spec fn modulate_spec(&self, a: Self::Color, b: Self::Color) -> Self::Color;

    spec fn accumulate_spec(&self, a: Self::Color, b: Self::Color) -> Self::Color;

    spec fn average_spec(&self, sum: Self::Color, count: u32) -> Self::Color;

    /// A camera ray through a randomly jittered point of pixel `pos` of an
    /// image of `img_size` pixels.
    fn camera_ray(&self, rng: &mut Self::Rng, pos: (u32, u32), img_size: (u32, u32)) -> (r: Ray<
        Self::Vector,
    >)
        ensures
            (r, *final(rng)) == self.camera_ray_spec(*old(rng), pos, img_size),
    ;

    /// Intersects `ray` with the scene and, on a hit, scatters it off the
    /// material that was hit; on a miss, looks up the environment.
    fn bounce(&self, rng: &mut Self::Rng, ray: &Ray<Self::Vector>) -> (r: Bounce<
        Self::Vector,
        Self::Color,
    >)
        ensures
            (r, *final(rng)) == self.bounce_spec(*old(rng), *ray),
    ;

    /// The color `(0, 0, 0)`.
    fn black(&self) -> (r: Self::Color)
        ensures
            r == self.black_spec(),
    ;

    /// The color `(1, 1, 1)`.
    fn white(&self) -> (r: Self::Color)
        ensures
            r == self.white_spec(),
    ;

    /// Channel-wise product.
    fn modulate(&self, a: &Self::Color, b: &Self::Color) -> (r: Self::Color)
        ensures
            r == self.modulate_spec(*a, *b),
    ;

    /// Channel-wise sum.
    fn accumulate(&self, a: &Self::Color, b: &Self::Color) -> (r: Self::Color)
        ensures
            r == self.accumulate_spec(*a, *b),
    ;

    /// `sum` divided by `count`, channel-wise.
    fn average(&self, sum: &Self::Color, count: u32) -> (r: Self::Color)
        ensures
            r == self.average_spec(*sum, count),
    ;
}

/// The path traced from `ray` with `depth` bounces left, its weight so far
/// being `att`: its radiance, the number of times the scene is consulted, and
/// the random state afterwards. With no bounce left the path is black; a ray
/// that escapes ends it with the environment's radiance times the weight; a
/// scattered ray carries on with the weight multiplied by its attenuation.
pub open spec fn path<S: LightTransport>(
    scene: &S,
    rng: S::Rng,
    ray: Ray<S::Vector>,
    att: S::Color,
    depth: nat,
) -> (S::Color, nat, S::Rng)
    decreases depth,
{
    if depth == 0 {
        (scene.black_spec(), 0, rng)
    } else {
        let (b, rng2) = scene.bounce_spec(rng, ray);
        match b {
            Bounce::Scattered { ray: next, attenuation: a } => {
                let rest = path(scene, rng2, next, scene.modulate_spec(att, a), (depth - 1) as nat);
                (rest.0, rest.1 + 1, rest.2)
            },
            Bounce::Escaped { radiance } => (scene.modulate_spec(att, radiance), 1, rng2),
        }
    }
}

/// A path never consults the scene more than `depth` times, whatever the
/// scene holds, and consults it at least once when any bounce is allowed.
pub proof fn lemma_path_bounces<S: LightTransport>(
    scene: &S,
    rng: S::Rng,
    ray: Ray<S::Vector>,
    att: S::Color,
    depth: nat,
)
    ensures
        path(scene, rng, ray, att, depth).1 <= depth,
        depth > 0 ==> path(scene, rng, ray, att, depth).1 >= 1,
    decreases depth,
{
    if depth > 0 {
        let (b, rng2) = scene.bounce_spec(rng, ray);
        if let Bounce::Scattered { ray: next, attenuation: a } = b {
            lemma_path_bounces(scene, rng2, next, scene.modulate_spec(att, a), (depth - 1) as nat);
        }
    }
}

/// In a scene that scatters every ray (facing mirrors, say), a path is black
/// and consults the scene exactly `depth` times: the budget, not the scene,
/// ends it.
pub proof fn lemma_trapped_path_is_black<S: LightTransport>(
    scene: &S,
    rng: S::Rng,
    ray: Ray<S::Vector>,
    att: S::Color,
    depth: nat,
)
    requires
        forall|g: S::Rng, r: Ray<S::Vector>| #[trigger] scene.bounce_spec(g, r).0 is Scattered,
    ensures
        path(scene, rng, ray, att, depth).0 == scene.black_spec(),
        path(scene, rng, ray, att, depth).1 == depth,
    decreases depth,
{
    if depth > 0 {
        let (b, rng2) = scene.bounce_spec(rng, ray);
        assert(b is Scattered);
        if let Bounce::Scattered { ray: next, attenuation: a } = b {
            lemma_trapped_path_is_black(
                scene,
                rng2,
                next,
                scene.modulate_spec(att, a),
                (depth - 1) as nat,
            );
        }
    }
}

/// Traces one path from `ray` through at most `depth` bounces and returns its
/// radiance together with the number of times the scene was consulted.
/// Each consultation either scatters the ray, multiplying its weight into a
/// running attenuation, or lets it escape, which ends the path with the
/// environment's radiance times that attenuation. A path still bouncing when
/// the budget is spent contributes black.
pub fn sample_ray<S: LightTransport>(scene: &S, rng: &mut S::Rng, ray: Ray<S::Vector>, depth: u32) -> (r: (
    S::Color,
    u32,
))
    ensures
        (r.0, r.1 as nat, *final(rng)) == path(scene, *old(rng), ray, scene.white_spec(), depth as nat),
        r.1 <= depth,
{
    let mut attenuation = scene.white();
    let mut cur = ray;
    let ghost ray0 = cur;
    let mut remaining = depth;
    let mut bounces: u32 = 0;
    proof {
        lemma_path_bounces(scene, *rng, cur, attenuation, depth as nat);
    }
    loop
        invariant
            bounces + remaining == depth,
            ({
                let p = path(scene, *rng, cur, attenuation, remaining as nat);
                (p.0, (p.1 + bounces) as nat, p.2)
            }) == path(scene, *old(rng), ray0, scene.white_spec(), depth as nat),
            ray0 == ray,
        decreases remaining,
    {
        if remaining == 0 {
            return (scene.black(), bounces);
        }
        bounces = bounces + 1;
        match scene.bounce(rng, &cur) {
            Bounce::Scattered { ray: next, attenuation: a } => {
                attenuation = scene.modulate(&attenuation, &a);
                cur = next;
                remaining = remaining - 1;
            },
            Bounce::Escaped { radiance } => {
                return (scene.modulate(&attenuation, &radiance), bounces);
            },
        }
    }
}

/// The first `n` samples of pixel `pos`: the sum of their radiances (starting
/// from black), the total number of bounces, and the random state afterwards.
/// Each sample draws a camera ray and traces a path of at most `depth`
/// bounces, in turn from the state the previous one left.
pub open spec fn sample_sum<S: LightTransport>(
    scene: &S,
    rng: S::Rng,
    pos: (u32, u32),
    img_size: (u32, u32),
    depth: nat,
    n: nat,
) -> (S::Color, nat, S::Rng)
    decreases n,
{
    if n == 0 {
        (scene.black_spec(), 0, rng)
    } else {
        let prev = sample_sum(scene, rng, pos, img_size, depth, (n - 1) as nat);
        let (ray, rng2) = scene.camera_ray_spec(prev.2, pos, img_size);
        let p = path(scene, rng2, ray, scene.white_spec(), depth);
        (scene.accumulate_spec(prev.0, p.0), prev.1 + p.1, p.2)
    }
}

/// `n` samples bounce at most `n * depth` times in all.
pub proof fn lemma_sample_sum_bounces<S: LightTransport>(
    scene: &S,
    rng: S::Rng,
    pos: (u32, u32),
    img_size: (u32, u32),
    depth: nat,
    n: nat,
)
    ensures
        sample_sum(scene, rng, pos, img_size, depth, n).1 <= n * depth,
    decreases n,
{
    if n > 0 {
        let prev = sample_sum(scene, rng, pos, img_size, depth, (n - 1) as nat);
        let (ray, rng2) = scene.camera_ray_spec(prev.2, pos, img_size);
        lemma_sample_sum_bounces(scene, rng, pos, img_size, depth, (n - 1) as nat);
        lemma_path_bounces(scene, rng2, ray, scene.white_spec(), depth);
        assert(n * depth == (n - 1) * depth + depth) by (nonlinear_arith);
    }
}

/// Per-pixel Monte Carlo estimation over a read-only scene.
pub struct Sampler<S> {
    pub scene: S,
    pub render_settings: RenderSettings,
}

impl<S: LightTransport> Sampler<S> {
    /// A sampler over `scene` with the given settings.
    pub fn new(scene: S, render_settings: RenderSettings) -> (r: Sampler<S>)
        ensures
            r.scene == scene,
            r.render_settings == render_settings,
    {
        Sampler { scene, render_settings }
    }

    /// The estimate of pixel `pos`: the radiance of `samples` paths, each
    /// started by a fresh jittered camera ray and cut off after the settings'
    /// `max_depth` bounces, summed and then divided once by `samples`.
    /// Returns the estimate and the total number of bounces.
    pub fn sample(&self, rng: &mut S::Rng, pos: (u32, u32), samples: u32) -> (r: (S::Color, u64))
        requires
            samples > 0,
        ensures
            ({
                let s = sample_sum(
                    &self.scene,
                    *old(rng),
                    pos,
                    self.render_settings.img_size,
                    self.render_settings.max_depth as nat,
                    samples as nat,
                );
                &&& r.0 == self.scene.average_spec(s.0, samples)
                &&& r.1 == s.1
                &&& *final(rng) == s.2
            }),
            r.1 <= samples as int * self.render_settings.max_depth as int,
    {
        let ghost rng0 = *rng;
        let ghost depth = self.render_settings.max_depth as nat;
        let ghost size = self.render_settings.img_size;
        let mut color = self.scene.black();
        let mut bounces: u64 = 0;
        let mut i: u32 = 0;
        while i < samples
            invariant
                i <= samples,
                (color, bounces as nat, *rng) == sample_sum(&self.scene, rng0, pos, size, depth, i as nat),
                rng0 == *old(rng),
                depth == self.render_settings.max_depth,
                size == self.render_settings.img_size,
            decreases samples - i,
        {
            let ray = self.scene.camera_ray(rng, pos, self.render_settings.img_size);
            let (c, n) = sample_ray(&self.scene, rng, ray, self.render_settings.max_depth);
            color = self.scene.accumulate(&color, &c);
            proof {
                lemma_sample_sum_bounces(&self.scene, rng0, pos, size, depth, i as nat + 1);
                assert((i as nat + 1) * depth <= 0xffff_ffff * 0xffff_ffff) by (nonlinear_arith)
                    requires
                        i as nat + 1 <= 0xffff_ffff,
                        depth <= 0xffff_ffff,
                ;
            }
            bounces = bounces + n as u64;
            i = i + 1;
        }
        proof {
            lemma_sample_sum_bounces(&self.scene, rng0, pos, size, depth, samples as nat);
        }
        (self.scene.average(&color, samples), bounces)
    }
}

} // verus!
