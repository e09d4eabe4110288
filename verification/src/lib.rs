//! A single-bounce ray-traced image renderer.
//!
//! One ray is fired per output pixel; the nearest shape it strikes decides the
//! pixel's color, attenuated by a flat ambient-light term.  Colors and
//! lighting coefficients are exact fixed-point fractions (see
//! [`color::COLOR_SCALE`]), so every color operation here is verified
//! integer arithmetic.  Shape-intersection math is an external collaborator:
//! callers cast the rays and hand the per-object hit distances in as
//! order-preserving codes, and the renderer resolves the nearest hit and
//! composites the raster.

pub mod color;
pub mod raster;
pub mod scene;
pub mod viewport;

pub use color::apply_material;
pub use color::Material;
pub use color::MyColor;
pub use color::Rgb8;
pub use color::COLOR_SCALE;
pub use raster::Raster;
pub use scene::find_closest;
pub use scene::Polyhedron;
pub use scene::RenderError;
pub use scene::Scene;
pub use viewport::modify_color;
pub use viewport::modify_color_generic;
pub use viewport::Viewport;
