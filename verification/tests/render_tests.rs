use raytrace::{Material, Polyhedron, RenderError, Rgb8, Scene, Viewport};

fn full_material(color: Rgb8) -> Polyhedron {
    Polyhedron::with_material(color, Material::with_ambient(255_000))
}

#[test]
fn empty_scene_fails_fast() {
    let view = Viewport::new((2, 2));
    let scene = Scene::new(vec![], view, Rgb8 { r: 120, g: 120, b: 120 }, 255_000);
    let hits: Vec<Vec<Option<u64>>> = vec![vec![], vec![], vec![], vec![]];
    match scene.render(&hits) {
        Err(RenderError::EmptyScene) => {}
        Ok(_) => panic!("an empty scene must not render"),
    }
}

#[test]
fn missed_pixels_show_the_ambient_shaded_background() {
    let view = Viewport::new_with_custom_ambient((2, 2), 229_500);
    let bg = Rgb8 { r: 120, g: 120, b: 120 };
    let scene = Scene::new(
        vec![full_material(Rgb8 { r: 255, g: 0, b: 0 })],
        view,
        bg,
        229_500,
    );
    let hits: Vec<Vec<Option<u64>>> = vec![vec![None]; 4];
    let img = scene.render(&hits).unwrap();
    let expected = scene.apply_ambient(bg);
    assert_eq!(expected, Rgb8 { r: 108, g: 108, b: 108 });
    for y in 0..2 {
        for x in 0..2 {
            assert_eq!(img.get_pixel(x, y), expected);
        }
    }
}

#[test]
fn hit_pixels_show_the_nearest_object_color() {
    let a = Rgb8 { r: 255, g: 0, b: 0 };
    let b = Rgb8 { r: 0, g: 255, b: 0 };
    let view = Viewport::new((2, 1));
    let scene = Scene::new(
        vec![full_material(a), full_material(b)],
        view,
        Rgb8 { r: 9, g: 9, b: 9 },
        255_000,
    );
    let near = 2.0f64.to_bits();
    let far = 5.0f64.to_bits();
    // Pixel (0,0): the second object is nearer; pixel (1,0): the first is.
    let hits = vec![vec![Some(far), Some(near)], vec![Some(near), Some(far)]];
    let img = scene.render(&hits).unwrap();
    assert_eq!(img.get_pixel(0, 0), b);
    assert_eq!(img.get_pixel(1, 0), a);
}

#[test]
fn hit_pixels_are_shaded_by_both_coefficients() {
    // Scene ambient 0.9, material ambient 0.4: 255 -> 92 per lit channel.
    let object = Polyhedron::new(Rgb8 { r: 255, g: 0, b: 255 });
    let view = Viewport::new((1, 1));
    let scene = Scene::new(vec![object], view, Rgb8 { r: 0, g: 0, b: 0 }, 229_500);
    let hits = vec![vec![Some(1.0f64.to_bits())]];
    let img = scene.render(&hits).unwrap();
    assert_eq!(img.get_pixel(0, 0), Rgb8 { r: 92, g: 0, b: 92 });
}

#[test]
fn render_allocates_the_camera_resolution() {
    let view = Viewport::new((3, 2));
    let scene = Scene::new(
        vec![full_material(Rgb8 { r: 1, g: 2, b: 3 })],
        view,
        Rgb8 { r: 0, g: 0, b: 0 },
        255_000,
    );
    let hits: Vec<Vec<Option<u64>>> = vec![vec![None]; 6];
    let img = scene.render(&hits).unwrap();
    assert_eq!(img.width(), 3);
    assert_eq!(img.height(), 2);
}
