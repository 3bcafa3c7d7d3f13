use vstd::prelude::*;

use crate::constants::{BOTTOM_WALL, LEFT_WALL, RIGHT_WALL, TOP_WALL, WALL_THICKNESS};
use crate::geometry::Pos;

verus! {

/// The four edges of the visible field.
#[derive(Clone, Copy, Debug, PartialEq, Eq, Structural)]
pub enum GameWall {
    Top,
    Bottom,
    Left,
    Right,
}

pub open spec fn wall_position(w: GameWall) -> Pos {
    match w {
        GameWall::Top => Pos { x: 0, y: TOP_WALL },
        GameWall::Bottom => Pos { x: 0, y: BOTTOM_WALL },
        GameWall::Right => Pos { x: RIGHT_WALL, y: 0 },
        GameWall::Left => Pos { x: LEFT_WALL, y: 0 },
    }
}

/// Width and height of a wall: it spans the field plus one thickness.
pub open spec fn wall_size(w: GameWall) -> Pos {
    match w {
        GameWall::Left | GameWall::Right => Pos {
            x: WALL_THICKNESS,
            y: (TOP_WALL - BOTTOM_WALL + WALL_THICKNESS) as i64,
        },
        GameWall::Top | GameWall::Bottom => Pos {
            x: (RIGHT_WALL - LEFT_WALL + WALL_THICKNESS) as i64,
            y: WALL_THICKNESS,
        },
    }
}

impl GameWall {
    /// The centre of the wall.
    pub fn position(&self) -> (r: Pos)
        ensures
            r == wall_position(*self),
    {
        match self {
            GameWall::Top => Pos { x: 0, y: TOP_WALL },
            GameWall::Bottom => Pos { x: 0, y: BOTTOM_WALL },
            GameWall::Right => Pos { x: RIGHT_WALL, y: 0 },
            GameWall::Left => Pos { x: LEFT_WALL, y: 0 },
        }
    }

    /// The wall's width (`x`) and height (`y`).
    pub fn size(&self) -> (r: Pos)
        ensures
            r == wall_size(*self),
    {
        let box_height: i64 = TOP_WALL - BOTTOM_WALL;
        let box_width: i64 = RIGHT_WALL - LEFT_WALL;
        match self {
            GameWall::Left | GameWall::Right => Pos { x: WALL_THICKNESS, y: box_height + WALL_THICKNESS },
            GameWall::Top | GameWall::Bottom => Pos { x: box_width + WALL_THICKNESS, y: WALL_THICKNESS },
        }
    }
}

/// A wall as placed in the world: its centre and its size.
#[derive(Clone, Copy, Debug, PartialEq, Eq, Structural)]
pub struct WallBundle {
    pub position: Pos,
    pub size: Pos,
}

impl WallBundle {
    pub fn new(location: GameWall) -> (r: WallBundle)
        ensures
            r.position == wall_position(location),
            r.size == wall_size(location),
    {
        WallBundle { position: location.position(), size: location.size() }
    }
}

} // verus!
