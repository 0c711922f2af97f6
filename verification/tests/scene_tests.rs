use raytracer::scalar::Scalar;
use raytracer::colour::Colour;
use raytracer::point::Point;
use raytracer::scene::{Element, Intersection, Scene, Sphere};

fn frame(width: u32, height: u32) -> Scene {
    Scene {
        width,
        height,
        fov: 90f64.to_bits(),
        elements: Vec::new(),
        light: Vec::new(),
        shadow_bias: 1e-4f64.to_bits(),
    }
}

fn trace(hits: &Vec<Option<Scalar>>) -> Option<Intersection> {
    let mut scene = frame(800, 600);
    for _ in hits {
        scene.elements.push(Element::Sphere(Sphere {
            center: Point::zero(),
            radius: 1f64.to_bits(),
            colour: Colour { red: 0, green: 0, blue: 0 },
            albedo: 1f32.to_bits(),
        }));
    }
    scene.trace(hits)
}

fn quantity(v: f64) -> Scalar {
    Scalar::from_bits(v.to_bits()).unwrap()
}

#[test]
fn trace_of_no_surface_misses() {
    assert_eq!(trace(&vec![]), None);
}

#[test]
fn trace_of_missed_surfaces_misses() {
    assert_eq!(trace(&vec![None, None, None]), None);
}

#[test]
fn trace_takes_the_least_distance() {
    let hits = vec![Some(quantity(7.0)), None, Some(quantity(2.5)), Some(quantity(4.0))];
    let found = trace(&hits).unwrap();
    assert_eq!(found.element, 2);
    assert_eq!(found.distance, quantity(2.5));
    assert_eq!(f64::from_bits(found.distance.to_bits()), 2.5);
}

#[test]
fn trace_takes_the_first_of_equal_distances() {
    let hits = vec![None, Some(quantity(3.0)), Some(quantity(1.0)), Some(quantity(1.0)), Some(quantity(1.0))];
    let found = trace(&hits).unwrap();
    assert_eq!(found.element, 2);
    assert_eq!(found.distance, quantity(1.0));
}

#[test]
fn trace_keeps_a_negative_distance() {
    let hits = vec![Some(quantity(1.0)), Some(quantity(-4.0)), Some(quantity(0.0))];
    let found = trace(&hits).unwrap();
    assert_eq!(found.element, 1);
    assert_eq!(found.distance, quantity(-4.0));
}

#[test]
fn trace_of_one_hit() {
    let found = trace(&vec![None, Some(quantity(9.0))]).unwrap();
    assert_eq!(found, Intersection { distance: quantity(9.0), element: 1 });
}

#[test]
fn intersection_holds_what_it_was_given() {
    let hit = Intersection::new(quantity(2.0), 5);
    assert_eq!(hit.distance, quantity(2.0));
    assert_eq!(hit.element, 5);
}

#[test]
fn scene_is_valid_only_when_wider_than_high() {
    assert!(frame(800, 600).is_valid());
    assert!(!frame(600, 600).is_valid());
    assert!(!frame(600, 800).is_valid());
    assert!(frame(1, 0).is_valid());
}

#[test]
fn pixels_are_counted_and_placed_by_column() {
    let scene = frame(800, 600);
    assert_eq!(scene.pixel_count(), 480000);
    assert_eq!(scene.pixel_index(0, 0), 0);
    assert_eq!(scene.pixel_index(0, 599), 599);
    assert_eq!(scene.pixel_index(1, 0), 600);
    assert_eq!(scene.pixel_index(799, 599), 479999);
    let large = frame(u32::MAX, u32::MAX - 1);
    assert_eq!(large.pixel_count(), 18446744060824649730);
}

#[test]
fn trace_takes_the_first_of_the_two_zeros() {
    let found = trace(&vec![Some(quantity(3.0)), Some(quantity(-0.0)), Some(quantity(0.0))]).unwrap();
    assert_eq!(found.element, 1);
    assert_eq!(found.distance.to_bits(), (-0.0f64).to_bits());
    let found = trace(&vec![Some(quantity(0.0)), Some(quantity(-0.0))]).unwrap();
    assert_eq!(found.element, 0);
    assert_eq!(found.distance.to_bits(), 0);
}
