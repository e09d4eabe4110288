use raytrace::{modify_color, modify_color_generic, Material, Polyhedron, Rgb8, Viewport};

#[test]
fn viewport_defaults_to_nine_tenths_ambient() {
    let v = Viewport::new((640, 480));
    assert_eq!(v.dimensions, (640, 480));
    assert_eq!(v.global_ambient, 229_500);
}

#[test]
fn custom_ambient_is_kept() {
    let v = Viewport::new_with_custom_ambient((10, 10), 255_000);
    assert_eq!(v.global_ambient, 255_000);
}

#[test]
fn pixel_ray_offsets_follow_the_planar_mapping() {
    // The offset is 2 - 4 * (pixel / resolution), as an exact rational over
    // the resolution.
    let v = Viewport::new((640, 480));
    assert_eq!(v.pixel_ray_offsets(0, 0), (1280, 960));
    assert_eq!(v.pixel_ray_offsets(320, 240), (0, 0));
    assert_eq!(v.pixel_ray_offsets(639, 479), (-1276, -956));
    let small = Viewport::new((10, 10));
    assert_eq!(small.pixel_ray_offsets(5, 3), (0, 8));
}

#[test]
fn imagebuffer_matches_the_viewport_dimensions() {
    let v = Viewport::new((7, 5));
    let img = v.imagebuffer();
    assert_eq!(img.width(), 7);
    assert_eq!(img.height(), 5);
    assert_eq!(img.get_pixel(6, 4), Rgb8 { r: 0, g: 0, b: 0 });
}

#[test]
fn modify_color_applies_global_and_material_ambient() {
    // Defaults: 0.9 global, 0.4 material; 255 -> 92 per lit channel.
    let object = Polyhedron::new(Rgb8 { r: 255, g: 0, b: 255 });
    let v = Viewport::new((640, 480));
    assert_eq!(modify_color(v, &object), Rgb8 { r: 92, g: 0, b: 92 });
    assert_eq!(modify_color_generic(&object), Rgb8 { r: 92, g: 0, b: 92 });
}

#[test]
fn modify_color_with_full_coefficients_keeps_the_base_color() {
    let base = Rgb8 { r: 10, g: 200, b: 30 };
    let object = Polyhedron::with_material(base, Material::with_ambient(255_000));
    let v = Viewport::new_with_custom_ambient((1, 1), 255_000);
    assert_eq!(modify_color(v, &object), base);
}

#[test]
fn draw_ray_pairs_the_distance_with_the_shaded_color() {
    let object = Polyhedron::new(Rgb8 { r: 255, g: 0, b: 255 });
    let d = 3.0f64.to_bits();
    assert_eq!(
        Viewport::draw_ray(Some(d), &object),
        Some((d, Rgb8 { r: 92, g: 0, b: 92 }))
    );
    assert_eq!(Viewport::draw_ray(None, &object), None);
}
