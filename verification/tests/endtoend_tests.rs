use ncollide3d::na::{Isometry3, Point3, Vector3};
use ncollide3d::query::{Ray, RayCast};
use ncollide3d::shape::{Ball, Cuboid};
use raytrace::{Material, Polyhedron, Rgb8, Scene, Viewport};

/// Casts one ray per pixel of the viewport — origin at the eye, direction
/// the planar offset added to the forward direction — and collects each
/// shape's time of intersection as a distance code.
fn cast_grid(
    view: &Viewport,
    origin: Point3<f64>,
    forward: Vector3<f64>,
    shapes: &[(Box<dyn RayCast<f64>>, Isometry3<f64>)],
) -> Vec<Vec<Option<u64>>> {
    let (w, h) = view.dimensions;
    let mut grid = Vec::new();
    for y in 0..h {
        for x in 0..w {
            let (nx, nz) = view.pixel_ray_offsets(x, y);
            let dir = Vector3::new(nx as f64 / w as f64, 0.0, nz as f64 / h as f64) + forward;
            let ray = Ray::new(origin, dir);
            let row: Vec<Option<u64>> = shapes
                .iter()
                .map(|(s, iso)| s.toi_with_ray(iso, &ray, f64::MAX, false).map(f64::to_bits))
                .collect();
            grid.push(row);
        }
    }
    grid
}

#[test]
fn cube_silhouette_renders_exactly() {
    // A 10x10 image of one axis-aligned cube of half-extent 1, centered on
    // the camera's forward axis two units ahead, with full scene and
    // material ambient: silhouette pixels carry the cube's base color
    // untouched, all others the background color untouched.
    let cube_color = Rgb8 { r: 255, g: 0, b: 255 };
    let bg = Rgb8 { r: 10, g: 200, b: 30 };
    let view = Viewport::new_with_custom_ambient((10, 10), 255_000);
    let shapes: Vec<(Box<dyn RayCast<f64>>, Isometry3<f64>)> = vec![(
        Box::new(Cuboid::new(Vector3::new(1.0, 1.0, 1.0))),
        Isometry3::translation(0.0, -2.0, 0.0),
    )];
    let grid = cast_grid(&view, Point3::origin(), Vector3::new(0.0, -1.0, 0.0), &shapes);
    let scene = Scene::new(
        vec![Polyhedron::with_material(cube_color, Material::with_ambient(255_000))],
        view,
        bg,
        255_000,
    );
    let img = scene.render(&grid).unwrap();
    let mut cube_pixels = 0;
    for y in 0..10u32 {
        for x in 0..10u32 {
            // The view-plane offset for pixel k is 2 - 4k/10; the ray meets
            // the cube exactly when both offsets lie within [-1, 1], i.e.
            // for pixels 3 through 7 on each axis.
            let inside = (3..=7).contains(&x) && (3..=7).contains(&y);
            let expected = if inside { cube_color } else { bg };
            assert_eq!(img.get_pixel(x, y), expected, "pixel ({x},{y})");
            if inside {
                cube_pixels += 1;
            }
        }
    }
    assert_eq!(cube_pixels, 25);
}

#[test]
fn overlapping_spheres_show_the_nearer_color() {
    // Two spheres of equal radius on the camera's forward axis, the red one
    // nearer: wherever both are struck, the red one must win, whatever the
    // order of the scene's object list (the farther sphere comes first).
    let near_color = Rgb8 { r: 200, g: 0, b: 0 };
    let far_color = Rgb8 { r: 0, g: 0, b: 200 };
    let bg = Rgb8 { r: 5, g: 5, b: 5 };
    let view = Viewport::new_with_custom_ambient((10, 10), 255_000);
    let shapes: Vec<(Box<dyn RayCast<f64>>, Isometry3<f64>)> = vec![
        (Box::new(Ball::new(2.0)), Isometry3::translation(0.0, -6.0, 0.0)),
        (Box::new(Ball::new(2.0)), Isometry3::translation(0.0, -4.0, 0.0)),
    ];
    let grid = cast_grid(&view, Point3::origin(), Vector3::new(0.0, -1.0, 0.0), &shapes);
    let scene = Scene::new(
        vec![
            Polyhedron::with_material(far_color, Material::with_ambient(255_000)),
            Polyhedron::with_material(near_color, Material::with_ambient(255_000)),
        ],
        view,
        bg,
        255_000,
    );
    let img = scene.render(&grid).unwrap();
    let mut overlap = 0;
    for y in 0..10u32 {
        for x in 0..10u32 {
            let row = &grid[(y * 10 + x) as usize];
            let pixel = img.get_pixel(x, y);
            match (row[0], row[1]) {
                (Some(_), Some(_)) => {
                    overlap += 1;
                    assert_eq!(pixel, near_color, "overlap pixel ({x},{y})");
                }
                (None, Some(_)) => assert_eq!(pixel, near_color),
                (Some(_), None) => assert_eq!(pixel, far_color),
                (None, None) => assert_eq!(pixel, bg),
            }
        }
    }
    assert!(overlap > 0, "the spheres must overlap somewhere on screen");
}
