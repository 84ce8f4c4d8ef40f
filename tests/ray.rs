use raytracer::utils::ray::{Normalize, Ray};

#[derive(Debug, PartialEq, Clone, Copy)]
struct V3(f64, f64, f64);

impl Normalize for V3 {
    fn unit_spec(&self) -> V3 {
        self.unit()
    }

    fn unit(&self) -> V3 {
        let l = (self.0 * self.0 + self.1 * self.1 + self.2 * self.2).sqrt();
        V3(self.0 / l, self.1 / l, self.2 / l)
    }
}

#[test]
fn ray_direction_is_normalized() {
    let r = Ray::new(V3(1.0, 2.0, 3.0), V3(0.0, 0.0, -4.0));
    assert_eq!(r.origin, V3(1.0, 2.0, 3.0));
    assert_eq!(r.direction, V3(0.0, 0.0, -1.0));
}
