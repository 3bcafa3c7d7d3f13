use vstd::prelude::*;

verus! {

/// What a collidable entity is.
#[derive(Clone, Copy, Debug, PartialEq, Eq, Structural)]
pub enum ColliderKind {
    Ship,
    Rocket,
    Asteroid,
}

/// The shape an entity collides with.
#[derive(Clone, Copy, Debug, PartialEq, Eq, Structural)]
pub enum ColliderShape {
    Circle,
    Rectangle,
}

/// Marks an entity as taking part in collisions.
#[derive(Clone, Copy, Debug, PartialEq, Eq, Structural)]
pub struct Collider {
    pub name: ColliderKind,
    pub shape: ColliderShape,
}

} // verus!
