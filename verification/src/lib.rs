//! The decision core of a Monte-Carlo ray tracer.
//!
//! A renderer spends its time on arithmetic over reals, and its correctness
//! on a handful of decisions: which crossing of a surface counts, which
//! surface is nearest, what a material makes of a ray, when a path ends,
//! which pixel comes next and how the picture is written down. This crate
//! holds those decisions, and the loop that traces a ray through a scene of
//! surfaces. It never computes with a real number: it takes each one as the
//! encoding of an IEEE-754 double, compares, negates and passes it on.
pub mod camera;
pub mod double;
pub mod material;
pub mod ppm_renderer;
pub mod ray;
pub mod sampling;
pub mod shapes;
