use raytracer::output::ppm::PPMGenerator;
use raytracer::output::ImageGenerator;

#[test]
fn new_image_is_black() {
    let g = PPMGenerator::new((2, 2));
    assert_eq!(g.to_string(), "P3\n2 2\n255\n0 0 0\n0 0 0\n0 0 0\n0 0 0\n");
}

#[test]
fn bottom_row_is_written_last() {
    let mut g = PPMGenerator::new((2, 2));
    g.set_pixel((0, 0), (255, 128, 7));
    g.set_pixel((1, 1), (10, 20, 30));
    assert_eq!(
        g.to_string(),
        "P3\n2 2\n255\n0 0 0\n10 20 30\n255 128 7\n0 0 0\n"
    );
}

#[test]
fn set_pixel_twice_keeps_last() {
    let mut g = PPMGenerator::new((3, 1));
    g.set_pixel((2, 0), (1, 2, 3));
    g.set_pixel((2, 0), (4, 5, 6));
    assert_eq!(g.to_string(), "P3\n3 1\n255\n0 0 0\n0 0 0\n4 5 6\n");
}

#[test]
fn header_of_wide_image() {
    let g = PPMGenerator::new((1280, 0));
    assert_eq!(g.to_string(), "P3\n1280 0\n255\n");
}

#[test]
fn empty_image() {
    let g = PPMGenerator::new((0, 0));
    assert_eq!(g.to_string(), "P3\n0 0\n255\n");
}
