//! The exact core of a still-image ray tracer.
//!
//! The library holds the description of a scene, decides which surface a ray
//! meets first, which intersection root counts, whether a light reaches a
//! point and what can be displayed, and assembles the finished picture pixel
//! by pixel.
//!
//! Real quantities are held as their binary encodings: 64 bits for lengths
//! and coordinates, 32 bits for colour channels and intensities. The library
//! compares, negates and bounds them exactly, by their sign and magnitude;
//! sums, products and roots are left to its caller.

pub mod scalar;
pub mod vector;
pub mod point;
pub mod colour;
pub mod scene;
pub mod intersect;
pub mod shade;
pub mod picture;
