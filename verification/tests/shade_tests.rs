use raytracer::scalar::Scalar;
use raytracer::scene::Intersection;
use raytracer::shade::{in_light, light_intensity};

fn quantity(v: f64) -> Scalar {
    Scalar::from_bits(v.to_bits()).unwrap()
}

#[test]
fn open_path_is_lit() {
    assert!(in_light(None, quantity(3.0)));
    assert!(in_light(None, Scalar::infinity()));
}

#[test]
fn surface_before_the_light_shades() {
    let hit = Intersection::new(quantity(2.0), 0);
    assert!(!in_light(Some(hit), quantity(3.0)));
    assert!(!in_light(Some(hit), quantity(2.0)));
}

#[test]
fn surface_beyond_the_light_does_not_shade() {
    let hit = Intersection::new(quantity(5.0), 1);
    assert!(in_light(Some(hit), quantity(3.0)));
}

#[test]
fn distant_light_is_shaded_by_any_surface() {
    let hit = Intersection::new(quantity(1.0e300), 0);
    assert!(!in_light(Some(hit), Scalar::infinity()));
}

#[test]
fn occluded_point_receives_zero_intensity() {
    let hit = Intersection::new(quantity(2.0), 0);
    let received = light_intensity(Some(hit), quantity(3.0), 20.0f32.to_bits());
    assert_eq!(received, 0);
    assert_eq!(f32::from_bits(received), 0.0);
}

#[test]
fn lit_point_receives_the_full_intensity() {
    let hit = Intersection::new(quantity(5.0), 0);
    assert_eq!(f32::from_bits(light_intensity(None, quantity(3.0), 20.0f32.to_bits())), 20.0);
    assert_eq!(f32::from_bits(light_intensity(Some(hit), quantity(3.0), 0.75f32.to_bits())), 0.75);
}

#[test]
fn undefined_light_distance_lets_any_surface_shade() {
    let hit = Intersection::new(quantity(5.0), 0);
    let nowhere = Scalar::new(f64::NAN.to_bits());
    assert!(!in_light(Some(hit), nowhere));
    assert!(in_light(None, nowhere));
    assert_eq!(light_intensity(Some(hit), nowhere, 20.0f32.to_bits()), 0);
}
