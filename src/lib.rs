//! A small platform-climbing game: fixed-point vectors and affine transforms,
//! the sprite pipeline's geometry, and the fixed-step world simulation.
pub mod fixed;
pub mod vector;
pub mod transform;
pub mod sprite;
pub mod world;
pub mod random;
pub mod clock;
pub mod scene;
