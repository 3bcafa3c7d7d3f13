pub mod animation;
pub mod asteroid;
pub mod collider;
pub mod collision;
pub mod constants;
pub mod events;
pub mod geometry;
pub mod grid;
pub mod laws;
pub mod lifecycle;
mod random;
pub mod ship;
pub mod spawner;
pub mod timer;
pub mod wall;
pub mod world;
