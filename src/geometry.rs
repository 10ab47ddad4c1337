use vstd::prelude::*;

verus! {

/// Width of the frame that the presentation layer draws around the field:
/// a coordinate must stay at most `size - BORDER` on each axis.
pub const BORDER: u16 = 3;

/// A cell of the playing field. Horizontal steps are two units wide and
/// vertical steps one unit, which keeps the snake square on a terminal.
#[derive(Debug, Clone, Copy, PartialEq, Eq, Structural)]
pub struct Point {
    pub x: i64,
    pub y: i64,
}

#[derive(Debug, Clone, Copy, PartialEq, Eq, Structural)]
pub enum Direction {
    Up,
    Down,
    Left,
    Right,
}

impl Direction {
    pub open spec fn opposite_spec(self) -> Direction {
        match self {
            Direction::Up => Direction::Down,
            Direction::Down => Direction::Up,
            Direction::Left => Direction::Right,
            Direction::Right => Direction::Left,
        }
    }

    /// The direction that would turn the snake back onto itself.
    #[verifier::when_used_as_spec(opposite_spec)]
    pub fn opposite(self) -> (r: Direction)
        ensures
            r == self.opposite_spec(),
    {
        match self {
            Direction::Up => Direction::Down,
            Direction::Down => Direction::Up,
            Direction::Left => Direction::Right,
            Direction::Right => Direction::Left,
        }
    }
}

/// The point one step away from `p` in direction `d`.
pub open spec fn step(p: Point, d: Direction) -> Point {
    match d {
        Direction::Up => Point { x: p.x, y: (p.y - 1) as i64 },
        Direction::Down => Point { x: p.x, y: (p.y + 1) as i64 },
        Direction::Left => Point { x: (p.x - 2) as i64, y: p.y },
        Direction::Right => Point { x: (p.x + 2) as i64, y: p.y },
    }
}

impl Point {
    pub open spec fn on_screen(self) -> bool {
        0 <= self.x <= u16::MAX && 0 <= self.y <= u16::MAX
    }

    /// The point one step away in direction `d`.
    pub fn stepped(self, d: Direction) -> (r: Point)
        requires
            self.on_screen(),
        ensures
            r == step(self, d),
    {
        match d {
            Direction::Up => Point { x: self.x, y: self.y - 1 },
            Direction::Down => Point { x: self.x, y: self.y + 1 },
            Direction::Left => Point { x: self.x - 2, y: self.y },
            Direction::Right => Point { x: self.x + 2, y: self.y },
        }
    }
}

/// The playing field as the terminal reports its size.
#[derive(Debug, Clone, Copy, PartialEq, Eq, Structural)]
pub struct Field {
    pub width: u16,
    pub height: u16,
}

impl Field {
    /// The largest x-coordinate inside the walls.
    pub open spec fn max_x(self) -> int {
        self.width - BORDER
    }

    /// The largest y-coordinate inside the walls.
    pub open spec fn max_y(self) -> int {
        self.height - BORDER
    }

    pub open spec fn inside_spec(self, p: Point) -> bool {
        0 <= p.x <= self.max_x() && 0 <= p.y <= self.max_y()
    }

    /// Whether a head at `p` stands clear of the walls.
    #[verifier::when_used_as_spec(inside_spec)]
    pub fn inside(self, p: Point) -> (r: bool)
        ensures
            r == self.inside_spec(p),
    {
        let max_x = self.width as i64 - BORDER as i64;
        let max_y = self.height as i64 - BORDER as i64;
        0 <= p.x && p.x <= max_x && 0 <= p.y && p.y <= max_y
    }
}

} // verus!
